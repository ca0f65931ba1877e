//! What MLX counts while it runs: cache lookups, command buffers, scheduler contention,
//! evaluation time, primitives and conversions. All counters run from process start or from
//! their last reset.

use vstd::prelude::*;
use vstd::utf8::{decode_utf8, valid_utf8};

use crate::call::{report, reports, status_text, write_status, Reply, Step};
use crate::error::{Exception, ExceptionView, Location, LocationView};

verus! {

/// A counter that is read by a call of its own, and whose failure ends the query.
#[derive(Clone, Copy, Debug, PartialEq, Eq, Structural)]
pub enum Counter {
    /// `mlx_metal_kernel_cache_hits`.
    KernelCacheHits,
    /// `mlx_metal_kernel_cache_misses`.
    KernelCacheMisses,
    /// `mlx_metal_cmd_buffer_commits`.
    CmdBufferCommits,
    /// `mlx_metal_cmd_buffer_ops_total`.
    CmdBufferOpsTotal,
    /// `mlx_metal_scheduler_new_task_count`.
    SchedulerNewTaskCount,
    /// `mlx_metal_scheduler_completion_count`.
    SchedulerCompletionCount,
    /// `mlx_metal_scheduler_lock_wait_ns`.
    SchedulerLockWaitNs,
    /// `mlx_metal_scheduler_max_active_tasks`.
    SchedulerMaxActiveTasks,
    /// `mlx_metal_eval_gpu_calls`.
    EvalGpuCalls,
    /// `mlx_metal_eval_gpu_ns`.
    EvalGpuNs,
}

/// How an error names a counter, up to the status.
pub open spec fn counter_failure(counter: Counter) -> Seq<char> {
    match counter {
        Counter::KernelCacheHits => "metal::kernel_cache_hits failed (rc="@,
        Counter::KernelCacheMisses => "metal::kernel_cache_misses failed (rc="@,
        Counter::CmdBufferCommits => "metal::cmd_buffer_commits failed (rc="@,
        Counter::CmdBufferOpsTotal => "metal::cmd_buffer_ops_total failed (rc="@,
        Counter::SchedulerNewTaskCount => "metal::scheduler_new_task_count failed (rc="@,
        Counter::SchedulerCompletionCount => "metal::scheduler_completion_count failed (rc="@,
        Counter::SchedulerLockWaitNs => "metal::scheduler_lock_wait_ns failed (rc="@,
        Counter::SchedulerMaxActiveTasks => "metal::scheduler_max_active_tasks failed (rc="@,
        Counter::EvalGpuCalls => "metal::eval_gpu_calls failed (rc="@,
        Counter::EvalGpuNs => "metal::eval_gpu_ns failed (rc="@,
    }
}

fn describe_counter(counter: Counter) -> (text: &'static str)
    ensures
        text@ == counter_failure(counter),
{
    match counter {
        Counter::KernelCacheHits => "metal::kernel_cache_hits failed (rc=",
        Counter::KernelCacheMisses => "metal::kernel_cache_misses failed (rc=",
        Counter::CmdBufferCommits => "metal::cmd_buffer_commits failed (rc=",
        Counter::CmdBufferOpsTotal => "metal::cmd_buffer_ops_total failed (rc=",
        Counter::SchedulerNewTaskCount => "metal::scheduler_new_task_count failed (rc=",
        Counter::SchedulerCompletionCount => "metal::scheduler_completion_count failed (rc=",
        Counter::SchedulerLockWaitNs => "metal::scheduler_lock_wait_ns failed (rc=",
        Counter::SchedulerMaxActiveTasks => "metal::scheduler_max_active_tasks failed (rc=",
        Counter::EvalGpuCalls => "metal::eval_gpu_calls failed (rc=",
        Counter::EvalGpuNs => "metal::eval_gpu_ns failed (rc=",
    }
}

/// The error for a counter that could not be read.
pub open spec fn unreadable(counter: Counter, status: i32, here: LocationView) -> ExceptionView {
    ExceptionView {
        what: status_text(counter_failure(counter), status, ")"@),
        location: here,
    }
}

/// `step` reads `counter` where its reply has not come, and ends with an error where the reply
/// is a failure. Otherwise `rest` holds.
pub open spec fn reads<T, V>(
    step: Step<Counter, Result<V, Exception>>,
    counter: Counter,
    reply: Option<Reply<T>>,
    here: LocationView,
    rest: bool,
) -> bool {
    match reply {
        None => step == Step::<Counter, Result<V, Exception>>::Call(counter),
        Some(r) if r.status != 0 => step matches Step::Done(Err(e)) && e@ == unreadable(
            counter,
            r.status,
            here,
        ),
        Some(_) => rest,
    }
}

/// The reply at a place, where it has come.
pub open spec fn reply_at<T>(replies: Seq<Reply<T>>, i: int) -> Option<Reply<T>> {
    if 0 <= i < replies.len() {
        Some(replies[i])
    } else {
        None
    }
}

/// `step` is what is next in a query of two counters, the second after the first.
pub open spec fn reads_pair(
    step: Step<Counter, Result<(u64, u64), Exception>>,
    first: Counter,
    second: Counter,
    replies: Seq<Reply<u64>>,
    here: LocationView,
) -> bool {
    reads(
        step,
        first,
        reply_at(replies, 0),
        here,
        reads(
            step,
            second,
            reply_at(replies, 1),
            here,
            step == Step::<Counter, Result<(u64, u64), Exception>>::Done(
                Ok((replies[0].value, replies[1].value)),
            ),
        ),
    )
}

/// Where the query cannot go on past `counter`: the step to take instead.
fn read<T, V>(counter: Counter, reply: Option<Reply<T>>, here: &Location) -> (step: Option<
    Step<Counter, Result<V, Exception>>,
>)
    ensures
        match step {
            Some(s) => reads(s, counter, reply, here@, false),
            None => reply matches Some(r) && r.status == 0,
        },
{
    match reply {
        None => Some(Step::Call(counter)),
        Some(r) => if r.status != 0 {
            Some(
                Step::Done(
                    Err(
                        Exception::custom(
                            write_status(describe_counter(counter), r.status, ")"),
                            here,
                        ),
                    ),
                ),
            )
        } else {
            None
        },
    }
}

fn get_reply(replies: &[Reply<u64>], i: usize) -> (reply: Option<Reply<u64>>)
    ensures
        reply == reply_at(replies@, i as int),
{
    if i < replies.len() {
        Some(replies[i])
    } else {
        None
    }
}

fn read_pair(
    first: Counter,
    second: Counter,
    replies: &[Reply<u64>],
    here: &Location,
) -> (step: Step<Counter, Result<(u64, u64), Exception>>)
    ensures
        reads_pair(step, first, second, replies@, here@),
{
    if let Some(step) = read(first, get_reply(replies, 0), here) {
        return step;
    }
    if let Some(step) = read(second, get_reply(replies, 1), here) {
        return step;
    }
    Step::Done(Ok((replies[0].value, replies[1].value)))
}

/// The hits and the misses of the kernel cache.
pub fn kernel_cache_stats(replies: &[Reply<u64>], here: &Location) -> (step: Step<
    Counter,
    Result<(u64, u64), Exception>,
>)
    ensures
        reads_pair(step, Counter::KernelCacheHits, Counter::KernelCacheMisses, replies@, here@),
{
    read_pair(Counter::KernelCacheHits, Counter::KernelCacheMisses, replies, here)
}

/// The command buffers that were committed, and the operations encoded into them.
pub fn cmd_buffer_stats(replies: &[Reply<u64>], here: &Location) -> (step: Step<
    Counter,
    Result<(u64, u64), Exception>,
>)
    ensures
        reads_pair(step, Counter::CmdBufferCommits, Counter::CmdBufferOpsTotal, replies@, here@),
{
    read_pair(Counter::CmdBufferCommits, Counter::CmdBufferOpsTotal, replies, here)
}

/// The primitives that were evaluated, and the nanoseconds spent on that.
pub fn eval_gpu_stats(replies: &[Reply<u64>], here: &Location) -> (step: Step<
    Counter,
    Result<(u64, u64), Exception>,
>)
    ensures
        reads_pair(step, Counter::EvalGpuCalls, Counter::EvalGpuNs, replies@, here@),
{
    read_pair(Counter::EvalGpuCalls, Counter::EvalGpuNs, replies, here)
}

/// `step` is what is next in the query of the scheduler's four counters, one after the other.
pub open spec fn reads_scheduler(
    step: Step<Counter, Result<(u64, u64, u64, i32), Exception>>,
    replies: Seq<Reply<u64>>,
    max_active: Option<Reply<i32>>,
    here: LocationView,
) -> bool {
    reads(
        step,
        Counter::SchedulerNewTaskCount,
        reply_at(replies, 0),
        here,
        reads(
            step,
            Counter::SchedulerCompletionCount,
            reply_at(replies, 1),
            here,
            reads(
                step,
                Counter::SchedulerLockWaitNs,
                reply_at(replies, 2),
                here,
                reads(
                    step,
                    Counter::SchedulerMaxActiveTasks,
                    max_active,
                    here,
                    step == Step::<Counter, Result<(u64, u64, u64, i32), Exception>>::Done(
                        Ok(
                            (
                                replies[0].value,
                                replies[1].value,
                                replies[2].value,
                                max_active->0.value,
                            ),
                        ),
                    ),
                ),
            ),
        ),
    )
}

/// The tasks that were submitted, the tasks that completed, the nanoseconds spent waiting for
/// the scheduler's lock, and the most tasks that were active at once. The replies on the first
/// three come in `replies`, the one on the last in `max_active`.
pub fn scheduler_stats(
    replies: &[Reply<u64>],
    max_active: Option<Reply<i32>>,
    here: &Location,
) -> (step: Step<Counter, Result<(u64, u64, u64, i32), Exception>>)
    ensures
        reads_scheduler(step, replies@, max_active, here@),
{
    if let Some(step) = read(Counter::SchedulerNewTaskCount, get_reply(replies, 0), here) {
        return step;
    }
    if let Some(step) = read(Counter::SchedulerCompletionCount, get_reply(replies, 1), here) {
        return step;
    }
    if let Some(step) = read(Counter::SchedulerLockWaitNs, get_reply(replies, 2), here) {
        return step;
    }
    if let Some(step) = read(Counter::SchedulerMaxActiveTasks, max_active, here) {
        return step;
    }
    match max_active {
        Some(r) => Step::Done(
            Ok((replies[0].value, replies[1].value, replies[2].value, r.value)),
        ),
        None => Step::Call(Counter::SchedulerMaxActiveTasks),
    }
}

/// A counter that is read together with others, whatever becomes of them.
#[derive(Clone, Copy, Debug, PartialEq, Eq, Structural)]
pub enum Bin {
    /// `mlx_metal_prim_hist_rms_norm`.
    PrimRmsNorm,
    /// `mlx_metal_prim_hist_qmm`.
    PrimQmm,
    /// `mlx_metal_prim_hist_reshape`.
    PrimReshape,
    /// `mlx_metal_prim_hist_broadcast`.
    PrimBroadcast,
    /// `mlx_metal_prim_hist_multiply`.
    PrimMultiply,
    /// `mlx_metal_prim_hist_transpose`.
    PrimTranspose,
    /// `mlx_metal_prim_hist_compiled`.
    PrimCompiled,
    /// `mlx_metal_prim_hist_other`.
    PrimOther,
    /// `mlx_metal_astype_bf16_to_f32`.
    AstypeBf16ToFloat32,
    /// `mlx_metal_astype_f32_to_bf16`.
    AstypeFloat32ToBf16,
    /// `mlx_metal_astype_noop`.
    AstypeNoop,
    /// `mlx_metal_astype_other_pair`.
    AstypeOtherPair,
}

/// The bits that are set in any of the first `n` statuses.
pub open spec fn status_bitmap(replies: Seq<Reply<u64>>, n: nat) -> i32
    decreases n,
{
    if n == 0 {
        0
    } else {
        status_bitmap(replies, (n - 1) as nat) | replies[n - 1].status
    }
}

fn collect_statuses(replies: &[Reply<u64>], n: usize) -> (bitmap: i32)
    requires
        n <= replies@.len(),
    ensures
        bitmap == status_bitmap(replies@, n as nat),
{
    let mut bitmap: i32 = 0;
    let mut i: usize = 0;
    while i < n
        invariant
            i <= n <= replies@.len(),
            bitmap == status_bitmap(replies@, i as nat),
        decreases n - i,
    {
        bitmap = bitmap | replies[i].status;
        i = i + 1;
    }
    bitmap
}

/// The bins of the primitive histogram, in their order.
pub open spec fn prim_bins() -> Seq<Bin> {
    seq![
        Bin::PrimRmsNorm,
        Bin::PrimQmm,
        Bin::PrimReshape,
        Bin::PrimBroadcast,
        Bin::PrimMultiply,
        Bin::PrimTranspose,
        Bin::PrimCompiled,
        Bin::PrimOther,
    ]
}

/// How often each kind of primitive was evaluated: the six most frequent kinds, compiled ones, and
/// all others. All eight counters are read, and one that fails fails the query.
pub fn prim_histogram(replies: &[Reply<u64>], here: &Location) -> (step: Step<
    Bin,
    Result<(u64, u64, u64, u64, u64, u64, u64, u64), Exception>,
>)
    ensures
        replies@.len() < 8 ==> (step matches Step::Call(bin) && bin
            == prim_bins()[replies@.len() as int]),
        replies@.len() >= 8 ==> (step matches Step::Done(result) && reports(
            result,
            status_bitmap(replies@, 8),
            (
                replies@[0].value,
                replies@[1].value,
                replies@[2].value,
                replies@[3].value,
                replies@[4].value,
                replies@[5].value,
                replies@[6].value,
                replies@[7].value,
            ),
            status_text(
                "metal::prim_histogram failed (rc bitmap="@,
                status_bitmap(replies@, 8),
                ")"@,
            ),
            here@,
        )),
{
    let bins: [Bin; 8] = [
        Bin::PrimRmsNorm,
        Bin::PrimQmm,
        Bin::PrimReshape,
        Bin::PrimBroadcast,
        Bin::PrimMultiply,
        Bin::PrimTranspose,
        Bin::PrimCompiled,
        Bin::PrimOther,
    ];
    assert(bins@ =~= prim_bins());
    if replies.len() < 8 {
        return Step::Call(bins[replies.len()]);
    }
    let bitmap: i32 = collect_statuses(replies, 8);
    Step::Done(
        report(
            bitmap,
            (
                replies[0].value,
                replies[1].value,
                replies[2].value,
                replies[3].value,
                replies[4].value,
                replies[5].value,
                replies[6].value,
                replies[7].value,
            ),
            "metal::prim_histogram failed (rc bitmap=",
            ")",
            here,
        ),
    )
}

/// The bins of the conversion counts, in their order.
pub open spec fn astype_bins() -> Seq<Bin> {
    seq![
        Bin::AstypeBf16ToFloat32,
        Bin::AstypeFloat32ToBf16,
        Bin::AstypeNoop,
        Bin::AstypeOtherPair,
    ]
}

/// How often element types were converted: from 16-bit brain floats to 32-bit floats, back, to
/// the type that was there already, and between any other two. All four counters are read, and
/// one that fails fails the query.
pub fn astype_pair_stats(replies: &[Reply<u64>], here: &Location) -> (step: Step<
    Bin,
    Result<(u64, u64, u64, u64), Exception>,
>)
    ensures
        replies@.len() < 4 ==> (step matches Step::Call(bin) && bin
            == astype_bins()[replies@.len() as int]),
        replies@.len() >= 4 ==> (step matches Step::Done(result) && reports(
            result,
            status_bitmap(replies@, 4),
            (
                replies@[0].value,
                replies@[1].value,
                replies@[2].value,
                replies@[3].value,
            ),
            status_text(
                "metal::astype_pair_stats failed (rc bitmap="@,
                status_bitmap(replies@, 4),
                ")"@,
            ),
            here@,
        )),
{
    let bins: [Bin; 4] = [
        Bin::AstypeBf16ToFloat32,
        Bin::AstypeFloat32ToBf16,
        Bin::AstypeNoop,
        Bin::AstypeOtherPair,
    ];
    assert(bins@ =~= astype_bins());
    if replies.len() < 4 {
        return Step::Call(bins[replies.len()]);
    }
    let bitmap: i32 = collect_statuses(replies, 4);
    Step::Done(
        report(
            bitmap,
            (
                replies[0].value,
                replies[1].value,
                replies[2].value,
                replies[3].value,
            ),
            "metal::astype_pair_stats failed (rc bitmap=",
            ")",
            here,
        ),
    )
}

/// A call that sets counters to zero.
#[derive(Clone, Copy, Debug, PartialEq, Eq, Structural)]
pub enum ResetCall {
    /// `mlx_metal_reset_kernel_cache_stats`.
    KernelCacheStats,
    /// `mlx_metal_reset_cmd_buffer_stats`.
    CmdBufferStats,
    /// `mlx_metal_reset_scheduler_stats`.
    SchedulerStats,
    /// `mlx_metal_reset_eval_gpu_stats`.
    EvalGpuStats,
    /// `mlx_metal_reset_prim_hist`.
    PrimHist,
    /// `mlx_metal_reset_prim_hist_dynamic`.
    PrimHistDynamic,
    /// `mlx_metal_reset_astype_pair`.
    AstypePair,
}

/// `step` makes `call` where its reply has not come, and ends with what the reply reports
/// otherwise. `failure` is how an error begins, up to the status.
pub open spec fn resets(
    step: Step<ResetCall, Result<(), Exception>>,
    call: ResetCall,
    reply: Option<i32>,
    failure: Seq<char>,
    here: LocationView,
) -> bool {
    match reply {
        None => step == Step::<ResetCall, Result<(), Exception>>::Call(call),
        Some(rc) => step matches Step::Done(result) && reports(
            result,
            rc,
            (),
            status_text(failure, rc, ")"@),
            here,
        ),
    }
}

fn reset(call: ResetCall, reply: Option<i32>, failure: &str, here: &Location) -> (step: Step<
    ResetCall,
    Result<(), Exception>,
>)
    ensures
        resets(step, call, reply, failure@, here@),
{
    match reply {
        None => Step::Call(call),
        Some(rc) => Step::Done(report(rc, (), failure, ")", here)),
    }
}

/// Sets the hits and misses of the kernel cache to zero.
pub fn reset_kernel_cache_stats(reply: Option<i32>, here: &Location) -> (step: Step<
    ResetCall,
    Result<(), Exception>,
>)
    ensures
        resets(
            step,
            ResetCall::KernelCacheStats,
            reply,
            "metal::reset_kernel_cache_stats failed (rc="@,
            here@,
        ),
{
    reset(ResetCall::KernelCacheStats, reply, "metal::reset_kernel_cache_stats failed (rc=", here)
}

/// Sets the counts of command buffers and their operations to zero.
pub fn reset_cmd_buffer_stats(reply: Option<i32>, here: &Location) -> (step: Step<
    ResetCall,
    Result<(), Exception>,
>)
    ensures
        resets(
            step,
            ResetCall::CmdBufferStats,
            reply,
            "metal::reset_cmd_buffer_stats failed (rc="@,
            here@,
        ),
{
    reset(ResetCall::CmdBufferStats, reply, "metal::reset_cmd_buffer_stats failed (rc=", here)
}

/// Sets the scheduler's counters to zero.
pub fn reset_scheduler_stats(reply: Option<i32>, here: &Location) -> (step: Step<
    ResetCall,
    Result<(), Exception>,
>)
    ensures
        resets(
            step,
            ResetCall::SchedulerStats,
            reply,
            "metal::reset_scheduler_stats failed (rc="@,
            here@,
        ),
{
    reset(ResetCall::SchedulerStats, reply, "metal::reset_scheduler_stats failed (rc=", here)
}

/// Sets the count and the time of evaluations to zero.
pub fn reset_eval_gpu_stats(reply: Option<i32>, here: &Location) -> (step: Step<
    ResetCall,
    Result<(), Exception>,
>)
    ensures
        resets(
            step,
            ResetCall::EvalGpuStats,
            reply,
            "metal::reset_eval_gpu_stats failed (rc="@,
            here@,
        ),
{
    reset(ResetCall::EvalGpuStats, reply, "metal::reset_eval_gpu_stats failed (rc=", here)
}

/// Sets the primitive histogram to zero.
pub fn reset_prim_histogram(reply: Option<i32>, here: &Location) -> (step: Step<
    ResetCall,
    Result<(), Exception>,
>)
    ensures
        resets(
            step,
            ResetCall::PrimHist,
            reply,
            "metal::reset_prim_histogram failed (rc="@,
            here@,
        ),
{
    reset(ResetCall::PrimHist, reply, "metal::reset_prim_histogram failed (rc=", here)
}

/// Sets the histogram of primitives by name to zero.
pub fn reset_prim_histogram_dynamic(reply: Option<i32>, here: &Location) -> (step: Step<
    ResetCall,
    Result<(), Exception>,
>)
    ensures
        resets(
            step,
            ResetCall::PrimHistDynamic,
            reply,
            "metal::reset_prim_histogram_dynamic failed (rc="@,
            here@,
        ),
{
    reset(
        ResetCall::PrimHistDynamic,
        reply,
        "metal::reset_prim_histogram_dynamic failed (rc=",
        here,
    )
}

/// Sets the conversion counts to zero.
pub fn reset_astype_pair_stats(reply: Option<i32>, here: &Location) -> (step: Step<
    ResetCall,
    Result<(), Exception>,
>)
    ensures
        resets(
            step,
            ResetCall::AstypePair,
            reply,
            "metal::reset_astype_pair_stats failed (rc="@,
            here@,
        ),
{
    reset(ResetCall::AstypePair, reply, "metal::reset_astype_pair_stats failed (rc=", here)
}

/// The size of the buffer that the histogram of primitives by name is written to.
pub const HISTOGRAM_BUFFER: usize = 65_536;

/// What came back from `mlx_metal_prim_hist_dump_dynamic`.
pub struct HistogramDump {
    pub status: i32,
    /// The buffer, as the call left it.
    pub buffer: Vec<u8>,
    /// How many bytes of it were written.
    pub written: i32,
}

/// The bytes of a buffer that were written, where they fit. A length below zero leaves all of
/// them.
pub open spec fn written_part(buffer: Seq<u8>, written: i32) -> Seq<u8>
    recommends
        written <= buffer.len(),
{
    if written < 0 {
        buffer
    } else {
        buffer.take(written as int)
    }
}

/// How `String::from_utf8` explains that bytes are not UTF-8.
pub uninterp spec fn utf8_error_text(bytes: Seq<u8>) -> Seq<char>;

/// `String::from_utf8`, with its error as text. It gives the text that the bytes encode where
/// they are valid UTF-8, and an explanation that depends on the bytes alone otherwise.
#[verifier::external_body]
fn from_utf8(bytes: Vec<u8>) -> (text: Result<String, String>)
    ensures
        match text {
            Ok(s) => valid_utf8(bytes@) && s@ == decode_utf8(bytes@),
            Err(why) => !valid_utf8(bytes@) && why@ == utf8_error_text(bytes@),
        },
{
    String::from_utf8(bytes).map_err(|e| e.to_string())
}

/// The error for a histogram that is not text.
pub open spec fn not_text(why: Seq<char>, here: LocationView) -> ExceptionView {
    ExceptionView {
        what: "prim_histogram_dynamic: non-UTF8 output: "@ + why,
        location: here,
    }
}

/// The error for a histogram that is longer than the buffer.
pub open spec fn does_not_fit(here: LocationView) -> ExceptionView {
    ExceptionView {
        what: "metal::prim_histogram_dynamic: histogram does not fit the buffer"@,
        location: here,
    }
}

/// Hands on a histogram that was decoded, and wraps the reason why it could not be.
pub fn histogram_text(decoded: Result<String, String>, here: &Location) -> (result: Result<
    String,
    Exception,
>)
    ensures
        match decoded {
            Ok(text) => result == Ok::<String, Exception>(text),
            Err(why) => result matches Err(e) && e@ == not_text(why@, here@),
        },
{
    match decoded {
        Ok(text) => Ok(text),
        Err(why) => {
            let mut what: String = "prim_histogram_dynamic: non-UTF8 output: ".to_owned();
            what.append(why.as_str());
            Err(Exception::custom(what, here))
        },
    }
}

/// The histogram of primitives by name, as lines of the form `name=count`. The step that comes
/// first asks for the dump into a buffer of the given size. A histogram that does not fit is an
/// error, and is never handed on in part.
pub fn prim_histogram_dynamic(reply: Option<HistogramDump>, here: &Location) -> (step: Step<
    usize,
    Result<String, Exception>,
>)
    ensures
        match reply {
            None => step == Step::<usize, Result<String, Exception>>::Call(HISTOGRAM_BUFFER),
            Some(dump) => {
                let fits = dump.written <= dump.buffer@.len();
                let bytes = written_part(dump.buffer@, dump.written);
                &&& step matches Step::Done(result)
                &&& dump.status != 0 ==> (result matches Err(e) && e@ == (ExceptionView {
                    what: status_text(
                        "metal::prim_histogram_dynamic failed (rc="@,
                        dump.status,
                        ")"@,
                    ),
                    location: here@,
                }))
                &&& dump.status == 0 && !fits ==> (result matches Err(e) && e@ == does_not_fit(
                    here@,
                ))
                &&& dump.status == 0 && fits && valid_utf8(bytes) ==> (result matches Ok(text)
                    && text@ == decode_utf8(bytes))
                &&& dump.status == 0 && fits && !valid_utf8(bytes) ==> (result matches Err(e) && e@
                    == not_text(utf8_error_text(bytes), here@))
            },
        },
{
    match reply {
        None => Step::Call(HISTOGRAM_BUFFER),
        Some(dump) => {
            if dump.status != 0 {
                return Step::Done(
                    Err(
                        Exception::custom(
                            write_status(
                                "metal::prim_histogram_dynamic failed (rc=",
                                dump.status,
                                ")",
                            ),
                            here,
                        ),
                    ),
                );
            }
            let mut bytes: Vec<u8> = dump.buffer;
            if dump.written >= 0 {
                let length: usize = dump.written as usize;
                if length > bytes.len() {
                    let what: &str =
                        "metal::prim_histogram_dynamic: histogram does not fit the buffer";
                    return Step::Done(Err(Exception::custom(what.to_owned(), here)));
                }
                bytes.truncate(length);
            }
            assert(bytes@ =~= written_part(dump.buffer@, dump.written));
            Step::Done(histogram_text(from_utf8(bytes), here))
        },
    }
}

} // verus!

//! Memory configuration of the Metal backend.
//!
//! The limits are set before inference, so that a whole model stays resident in GPU memory. Each
//! of them is handed back as it stood before, for the caller to restore it later.

use vstd::prelude::*;

use crate::call::{report, reports, status_text, Reply, Step};
use crate::error::{Exception, Location};
use crate::text::{decimal, push_decimal};

verus! {

/// A call that configures or queries the memory of the backend.
#[derive(Clone, Copy, Debug, PartialEq, Eq, Structural)]
pub enum MemoryCall {
    /// `mlx_set_wired_limit`.
    SetWiredLimit(usize),
    /// `mlx_set_memory_limit`.
    SetMemoryLimit(usize),
    /// `mlx_set_cache_limit`.
    SetCacheLimit(usize),
    /// `mlx_get_active_memory`.
    GetActiveMemory,
    /// `mlx_get_cache_memory`.
    GetCacheMemory,
    /// `mlx_get_peak_memory`.
    GetPeakMemory,
    /// `mlx_clear_cache`.
    ClearCache,
}

/// `name(limit) returned status status`.
pub open spec fn limit_text(name: Seq<char>, limit: usize, status: i32) -> Seq<char> {
    status_text(name + "("@ + decimal(limit as nat) + ") returned status "@, status, ""@)
}

fn limit_report(name: &str, limit: usize, reply: Reply<usize>, here: &Location) -> (result: Result<
    usize,
    Exception,
>)
    ensures
        reports(result, reply.status, reply.value, limit_text(name@, limit, reply.status), here@),
{
    let mut before: String = name.to_owned();
    before.append("(");
    push_decimal(&mut before, limit as u64);
    before.append(") returned status ");
    report(reply.status, reply.value, before.as_str(), "", here)
}

/// Sets the wired-memory limit, in bytes, and returns the one that stood before: up to this much
/// the system keeps resident in GPU memory without paging.
pub fn set_wired_limit(limit: usize, reply: Option<Reply<usize>>, here: &Location) -> (step: Step<
    MemoryCall,
    Result<usize, Exception>,
>)
    ensures
        match reply {
            None => step == Step::<MemoryCall, Result<usize, Exception>>::Call(
                MemoryCall::SetWiredLimit(limit),
            ),
            Some(r) => step matches Step::Done(result) && reports(
                result,
                r.status,
                r.value,
                limit_text("mlx_set_wired_limit"@, limit, r.status),
                here@,
            ),
        },
{
    match reply {
        None => Step::Call(MemoryCall::SetWiredLimit(limit)),
        Some(r) => Step::Done(limit_report("mlx_set_wired_limit", limit, r, here)),
    }
}

/// Sets the soft cap, in bytes, above which allocations are throttled, and returns the one that
/// stood before.
pub fn set_memory_limit(limit: usize, reply: Option<Reply<usize>>, here: &Location) -> (step: Step<
    MemoryCall,
    Result<usize, Exception>,
>)
    ensures
        match reply {
            None => step == Step::<MemoryCall, Result<usize, Exception>>::Call(
                MemoryCall::SetMemoryLimit(limit),
            ),
            Some(r) => step matches Step::Done(result) && reports(
                result,
                r.status,
                r.value,
                limit_text("mlx_set_memory_limit"@, limit, r.status),
                here@,
            ),
        },
{
    match reply {
        None => Step::Call(MemoryCall::SetMemoryLimit(limit)),
        Some(r) => Step::Done(limit_report("mlx_set_memory_limit", limit, r, here)),
    }
}

/// Sets the cap, in bytes, above which the allocator's cache gives memory back, and returns the
/// one that stood before.
pub fn set_cache_limit(limit: usize, reply: Option<Reply<usize>>, here: &Location) -> (step: Step<
    MemoryCall,
    Result<usize, Exception>,
>)
    ensures
        match reply {
            None => step == Step::<MemoryCall, Result<usize, Exception>>::Call(
                MemoryCall::SetCacheLimit(limit),
            ),
            Some(r) => step matches Step::Done(result) && reports(
                result,
                r.status,
                r.value,
                limit_text("mlx_set_cache_limit"@, limit, r.status),
                here@,
            ),
        },
{
    match reply {
        None => Step::Call(MemoryCall::SetCacheLimit(limit)),
        Some(r) => Step::Done(limit_report("mlx_set_cache_limit", limit, r, here)),
    }
}

/// The bytes that are in use.
pub fn get_active_memory(reply: Option<Reply<usize>>, here: &Location) -> (step: Step<
    MemoryCall,
    Result<usize, Exception>,
>)
    ensures
        match reply {
            None => step == Step::<MemoryCall, Result<usize, Exception>>::Call(
                MemoryCall::GetActiveMemory,
            ),
            Some(r) => step matches Step::Done(result) && reports(
                result,
                r.status,
                r.value,
                status_text("mlx_get_active_memory returned status "@, r.status, ""@),
                here@,
            ),
        },
{
    match reply {
        None => Step::Call(MemoryCall::GetActiveMemory),
        Some(r) => Step::Done(
            report(r.status, r.value, "mlx_get_active_memory returned status ", "", here),
        ),
    }
}

/// The bytes that the allocator's cache holds.
pub fn get_cache_memory(reply: Option<Reply<usize>>, here: &Location) -> (step: Step<
    MemoryCall,
    Result<usize, Exception>,
>)
    ensures
        match reply {
            None => step == Step::<MemoryCall, Result<usize, Exception>>::Call(
                MemoryCall::GetCacheMemory,
            ),
            Some(r) => step matches Step::Done(result) && reports(
                result,
                r.status,
                r.value,
                status_text("mlx_get_cache_memory returned status "@, r.status, ""@),
                here@,
            ),
        },
{
    match reply {
        None => Step::Call(MemoryCall::GetCacheMemory),
        Some(r) => Step::Done(
            report(r.status, r.value, "mlx_get_cache_memory returned status ", "", here),
        ),
    }
}

/// The most bytes that were in use since the last reset.
pub fn get_peak_memory(reply: Option<Reply<usize>>, here: &Location) -> (step: Step<
    MemoryCall,
    Result<usize, Exception>,
>)
    ensures
        match reply {
            None => step == Step::<MemoryCall, Result<usize, Exception>>::Call(
                MemoryCall::GetPeakMemory,
            ),
            Some(r) => step matches Step::Done(result) && reports(
                result,
                r.status,
                r.value,
                status_text("mlx_get_peak_memory returned status "@, r.status, ""@),
                here@,
            ),
        },
{
    match reply {
        None => Step::Call(MemoryCall::GetPeakMemory),
        Some(r) => Step::Done(
            report(r.status, r.value, "mlx_get_peak_memory returned status ", "", here),
        ),
    }
}

/// Drops what the allocator's cache holds. Memory in use is not touched.
pub fn clear_cache(reply: Option<i32>, here: &Location) -> (step: Step<
    MemoryCall,
    Result<(), Exception>,
>)
    ensures
        match reply {
            None => step == Step::<MemoryCall, Result<(), Exception>>::Call(
                MemoryCall::ClearCache,
            ),
            Some(status) => step matches Step::Done(result) && reports(
                result,
                status,
                (),
                status_text("mlx_clear_cache returned status "@, status, ""@),
                here@,
            ),
        },
{
    match reply {
        None => Step::Call(MemoryCall::ClearCache),
        Some(status) => Step::Done(
            report(status, (), "mlx_clear_cache returned status ", "", here),
        ),
    }
}

} // verus!

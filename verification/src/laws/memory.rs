//! Memory limits and queries.

use vstd::prelude::*;

use crate::call::{Reply, Step};
use crate::error::{Exception, Location};
use crate::laws::text::is_error;
use crate::memory::{
    clear_cache, get_active_memory, get_cache_memory, get_peak_memory, set_cache_limit,
    set_memory_limit, set_wired_limit, MemoryCall,
};
use crate::text::{decimal, signed_decimal};

verus! {

/// Setting the wired-memory limit hands it to its own call. Whatever the limits are, the one that
/// stood before comes back where the status is zero; otherwise the error names the limit and the
/// status.
pub proof fn set_wired_limit_returns_the_previous_one(
    limit: usize,
    reply: Option<Reply<usize>>,
    here: &Location,
    step: Step<MemoryCall, Result<usize, Exception>>,
)
    requires
        call_ensures(set_wired_limit, (limit, reply, here), step),
    ensures
        reply is None ==> step == Step::<MemoryCall, Result<usize, Exception>>::Call(
            MemoryCall::SetWiredLimit(limit),
        ),
        reply matches Some(r) ==> {
            &&& step matches Step::Done(result)
            &&& r.status == 0 ==> result == Ok::<usize, Exception>(r.value)
            &&& r.status != 0 ==> is_error(
                result,
                "mlx_set_wired_limit"@ + "("@ + decimal(limit as nat) + ") returned status "@
                    + signed_decimal(r.status as int),
                here,
            )
        },
{
    reveal_strlit("");
    if let Some(r) = reply {
        let what = "mlx_set_wired_limit"@ + "("@ + decimal(limit as nat) + ") returned status "@
            + signed_decimal(r.status as int);
        assert(what + ""@ =~= what);
    }
}

/// Setting the memory limit hands it to its own call. Whatever the limits are, the one that stood
/// before comes back where the status is zero; otherwise the error names the limit and the status.
pub proof fn set_memory_limit_returns_the_previous_one(
    limit: usize,
    reply: Option<Reply<usize>>,
    here: &Location,
    step: Step<MemoryCall, Result<usize, Exception>>,
)
    requires
        call_ensures(set_memory_limit, (limit, reply, here), step),
    ensures
        reply is None ==> step == Step::<MemoryCall, Result<usize, Exception>>::Call(
            MemoryCall::SetMemoryLimit(limit),
        ),
        reply matches Some(r) ==> {
            &&& step matches Step::Done(result)
            &&& r.status == 0 ==> result == Ok::<usize, Exception>(r.value)
            &&& r.status != 0 ==> is_error(
                result,
                "mlx_set_memory_limit"@ + "("@ + decimal(limit as nat) + ") returned status "@
                    + signed_decimal(r.status as int),
                here,
            )
        },
{
    reveal_strlit("");
    if let Some(r) = reply {
        let what = "mlx_set_memory_limit"@ + "("@ + decimal(limit as nat) + ") returned status "@
            + signed_decimal(r.status as int);
        assert(what + ""@ =~= what);
    }
}

/// Setting the cache limit hands it to its own call. Whatever the limits are, the one that stood
/// before comes back where the status is zero; otherwise the error names the limit and the status.
pub proof fn set_cache_limit_returns_the_previous_one(
    limit: usize,
    reply: Option<Reply<usize>>,
    here: &Location,
    step: Step<MemoryCall, Result<usize, Exception>>,
)
    requires
        call_ensures(set_cache_limit, (limit, reply, here), step),
    ensures
        reply is None ==> step == Step::<MemoryCall, Result<usize, Exception>>::Call(
            MemoryCall::SetCacheLimit(limit),
        ),
        reply matches Some(r) ==> {
            &&& step matches Step::Done(result)
            &&& r.status == 0 ==> result == Ok::<usize, Exception>(r.value)
            &&& r.status != 0 ==> is_error(
                result,
                "mlx_set_cache_limit"@ + "("@ + decimal(limit as nat) + ") returned status "@
                    + signed_decimal(r.status as int),
                here,
            )
        },
{
    reveal_strlit("");
    if let Some(r) = reply {
        let what = "mlx_set_cache_limit"@ + "("@ + decimal(limit as nat) + ") returned status "@
            + signed_decimal(r.status as int);
        assert(what + ""@ =~= what);
    }
}

/// The query of the bytes in use makes its own call, and gives the number that the call wrote where
/// the status is zero; otherwise the error names the status.
pub proof fn get_active_memory_returns_what_was_read(
    reply: Option<Reply<usize>>,
    here: &Location,
    step: Step<MemoryCall, Result<usize, Exception>>,
)
    requires
        call_ensures(get_active_memory, (reply, here), step),
    ensures
        reply is None ==> step == Step::<MemoryCall, Result<usize, Exception>>::Call(
            MemoryCall::GetActiveMemory,
        ),
        reply matches Some(r) ==> {
            &&& step matches Step::Done(result)
            &&& r.status == 0 ==> result == Ok::<usize, Exception>(r.value)
            &&& r.status != 0 ==> is_error(
                result,
                "mlx_get_active_memory returned status "@ + signed_decimal(r.status as int),
                here,
            )
        },
{
    reveal_strlit("");
    if let Some(r) = reply {
        let what = "mlx_get_active_memory returned status "@ + signed_decimal(r.status as int);
        assert(what + ""@ =~= what);
    }
}

/// The query of the bytes in the cache makes its own call, and gives the number that the call wrote
/// where the status is zero; otherwise the error names the status.
pub proof fn get_cache_memory_returns_what_was_read(
    reply: Option<Reply<usize>>,
    here: &Location,
    step: Step<MemoryCall, Result<usize, Exception>>,
)
    requires
        call_ensures(get_cache_memory, (reply, here), step),
    ensures
        reply is None ==> step == Step::<MemoryCall, Result<usize, Exception>>::Call(
            MemoryCall::GetCacheMemory,
        ),
        reply matches Some(r) ==> {
            &&& step matches Step::Done(result)
            &&& r.status == 0 ==> result == Ok::<usize, Exception>(r.value)
            &&& r.status != 0 ==> is_error(
                result,
                "mlx_get_cache_memory returned status "@ + signed_decimal(r.status as int),
                here,
            )
        },
{
    reveal_strlit("");
    if let Some(r) = reply {
        let what = "mlx_get_cache_memory returned status "@ + signed_decimal(r.status as int);
        assert(what + ""@ =~= what);
    }
}

/// The query of the most bytes that were in use makes its own call, and gives the number that the
/// call wrote where the status is zero; otherwise the error names the status.
pub proof fn get_peak_memory_returns_what_was_read(
    reply: Option<Reply<usize>>,
    here: &Location,
    step: Step<MemoryCall, Result<usize, Exception>>,
)
    requires
        call_ensures(get_peak_memory, (reply, here), step),
    ensures
        reply is None ==> step == Step::<MemoryCall, Result<usize, Exception>>::Call(
            MemoryCall::GetPeakMemory,
        ),
        reply matches Some(r) ==> {
            &&& step matches Step::Done(result)
            &&& r.status == 0 ==> result == Ok::<usize, Exception>(r.value)
            &&& r.status != 0 ==> is_error(
                result,
                "mlx_get_peak_memory returned status "@ + signed_decimal(r.status as int),
                here,
            )
        },
{
    reveal_strlit("");
    if let Some(r) = reply {
        let what = "mlx_get_peak_memory returned status "@ + signed_decimal(r.status as int);
        assert(what + ""@ =~= what);
    }
}

/// Clearing the cache makes its own call, and succeeds where the status is zero; otherwise the
/// error names the status.
pub proof fn clear_cache_reports_its_status(
    reply: Option<i32>,
    here: &Location,
    step: Step<MemoryCall, Result<(), Exception>>,
)
    requires
        call_ensures(clear_cache, (reply, here), step),
    ensures
        reply is None ==> step == Step::<MemoryCall, Result<(), Exception>>::Call(
            MemoryCall::ClearCache,
        ),
        reply matches Some(status) ==> {
            &&& step matches Step::Done(result)
            &&& status == 0 ==> result == Ok::<(), Exception>(())
            &&& status != 0 ==> is_error(
                result,
                "mlx_clear_cache returned status "@ + signed_decimal(status as int),
                here,
            )
        },
{
    reveal_strlit("");
    if let Some(status) = reply {
        let what = "mlx_clear_cache returned status "@ + signed_decimal(status as int);
        assert(what + ""@ =~= what);
    }
}

} // verus!

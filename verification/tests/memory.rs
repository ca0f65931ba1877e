use mlx_metal::call::{Reply, Step};
use mlx_metal::error::{Exception, Location};
use mlx_metal::memory::{
    clear_cache, get_active_memory, get_cache_memory, get_peak_memory, set_cache_limit,
    set_memory_limit, set_wired_limit, MemoryCall,
};

fn here() -> Location {
    Location { file: "memory.rs".to_string(), line: 3, column: 1 }
}

fn call<T>(step: Step<MemoryCall, T>) -> MemoryCall {
    match step {
        Step::Call(call) => call,
        Step::Done(_) => panic!("no call"),
    }
}

fn done<T>(step: Step<MemoryCall, T>) -> T {
    match step {
        Step::Call(_) => panic!("not done"),
        Step::Done(result) => result,
    }
}

fn what<T>(result: Result<T, Exception>) -> String {
    match result {
        Ok(_) => panic!("no error"),
        Err(e) => {
            assert_eq!(e.location.file, "memory.rs");
            assert_eq!(e.location.line, 3);
            assert_eq!(e.location.column, 1);
            e.what().to_string()
        }
    }
}

#[test]
fn limits_are_handed_to_their_calls() {
    assert_eq!(call(set_wired_limit(7, None, &here())), MemoryCall::SetWiredLimit(7));
    assert_eq!(call(set_memory_limit(8, None, &here())), MemoryCall::SetMemoryLimit(8));
    assert_eq!(call(set_cache_limit(9, None, &here())), MemoryCall::SetCacheLimit(9));
}

#[test]
fn previous_limits_come_back() {
    let reply = Some(Reply { status: 0, value: 1234 });
    assert_eq!(done(set_wired_limit(7, reply, &here())).unwrap(), 1234);
    assert_eq!(done(set_memory_limit(7, reply, &here())).unwrap(), 1234);
    assert_eq!(done(set_cache_limit(7, reply, &here())).unwrap(), 1234);
}

#[test]
fn refused_limits_name_limit_and_status() {
    let reply = Some(Reply { status: -2, value: 1234 });
    assert_eq!(
        what(done(set_wired_limit(30_064_771_072, reply, &here()))),
        "mlx_set_wired_limit(30064771072) returned status -2"
    );
    assert_eq!(
        what(done(set_memory_limit(0, reply, &here()))),
        "mlx_set_memory_limit(0) returned status -2"
    );
    assert_eq!(
        what(done(set_cache_limit(10, reply, &here()))),
        "mlx_set_cache_limit(10) returned status -2"
    );
}

#[test]
fn queries_return_bytes() {
    let reply = Some(Reply { status: 0, value: 99 });
    assert_eq!(call(get_active_memory(None, &here())), MemoryCall::GetActiveMemory);
    assert_eq!(call(get_cache_memory(None, &here())), MemoryCall::GetCacheMemory);
    assert_eq!(call(get_peak_memory(None, &here())), MemoryCall::GetPeakMemory);
    assert_eq!(done(get_active_memory(reply, &here())).unwrap(), 99);
    assert_eq!(done(get_cache_memory(reply, &here())).unwrap(), 99);
    assert_eq!(done(get_peak_memory(reply, &here())).unwrap(), 99);
}

#[test]
fn failed_queries_name_the_status() {
    let reply = Some(Reply { status: i32::MIN, value: 99 });
    assert_eq!(
        what(done(get_active_memory(reply, &here()))),
        "mlx_get_active_memory returned status -2147483648"
    );
    assert_eq!(
        what(done(get_cache_memory(reply, &here()))),
        "mlx_get_cache_memory returned status -2147483648"
    );
    assert_eq!(
        what(done(get_peak_memory(reply, &here()))),
        "mlx_get_peak_memory returned status -2147483648"
    );
}

#[test]
fn cache_is_cleared() {
    assert_eq!(call(clear_cache(None, &here())), MemoryCall::ClearCache);
    assert!(done(clear_cache(Some(0), &here())).is_ok());
    assert_eq!(
        what(done(clear_cache(Some(1), &here()))),
        "mlx_clear_cache returned status 1"
    );
}

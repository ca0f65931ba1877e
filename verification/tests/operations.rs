use mlx_metal::error::Location;
use mlx_metal::guard::{
    Guard, MaybeUninitArray, MaybeUninitClosure, MaybeUninitClosureValueAndGrad,
    MaybeUninitDevice, MaybeUninitSafeTensors, MaybeUninitStream, MaybeUninitVectorArray, Plain,
    Settled,
};
use mlx_metal::handles::{
    Array, Closure, ClosureValueAndGrad, Device, DeviceType, Handle, MlxArray, MlxClosure,
    MlxClosureValueAndGrad, MlxDevice, MlxMapStringToArray, MlxMapStringToString, MlxStream,
    MlxVectorArray, SafeTensors, Stream, VectorArray, MLX_CPU, MLX_GPU,
};
use mlx_metal::instrument::{
    enable_op_breakdown, enable_op_timing, read_op_counter, take_op_breakdown, take_op_timing,
    Instruments,
};
use mlx_metal::metal::lumen::{
    lumen_turboquant_encode, lumen_turboquant_encode_fused,
    lumen_turboquant_encode_fused_packed4, lumen_turboquant_rot_encode_fused, FusedGuards,
    FusedOp,
};
use mlx_metal::op::{begin_op, try_from_op, Op, OpEvent, OpState};
use mlx_metal::vector::{PairStep, VectorCall, VectorExtraction, VectorPairExtraction};

fn at() -> Location {
    Location { file: "ops.rs".to_string(), line: 40, column: 9 }
}

fn here() -> Location {
    Location { file: "guard.rs".to_string(), line: 2, column: 1 }
}

/// Runs an operation, and says which steps it took.
fn run<T, G: Guard<T>>(
    instruments: &mut Instruments,
    guard: G,
    raw: G::Raw,
    status: i32,
) -> (Settled<T>, Vec<&'static str>) {
    let op = Op::begin(instruments, ());
    let (op, steps) = run_op(instruments, op, guard, raw, status);
    match op.state {
        OpState::Done(settled) => (settled, steps),
        _ => unreachable!(),
    }
}

/// Runs an operation that has begun, and says which steps it took.
fn run_op<C, T, G: Guard<T>>(
    instruments: &mut Instruments,
    op: Op<C, T, G>,
    guard: G,
    raw: G::Raw,
    status: i32,
) -> (Op<C, T, G>, Vec<&'static str>) {
    let mut steps = Vec::new();
    let mut guard = Some(guard);
    let mut raw = Some(raw);
    let mut op = op;
    loop {
        let event = match &op.state {
            OpState::StartClock(_) => {
                steps.push("start clock");
                OpEvent::ClockStarted
            }
            OpState::LockBreakdown(_) => {
                steps.push("lock breakdown");
                OpEvent::BreakdownLocked(true)
            }
            OpState::InstallHandler(_) => {
                steps.push("install handler");
                OpEvent::HandlerInstalled
            }
            OpState::MakeGuard(_) => {
                steps.push("make guard");
                OpEvent::GuardMade(guard.take().unwrap())
            }
            OpState::MakeCall(_, _) => {
                steps.push("call");
                OpEvent::Returned(raw.take().unwrap(), status)
            }
            OpState::ReadClock(_, _, _) => {
                steps.push("read clock");
                OpEvent::ClockRead(250)
            }
            OpState::LockTiming(_, _, _, _) => {
                steps.push("lock timing");
                OpEvent::TimingLocked(true)
            }
            OpState::TakeError(_) => {
                steps.push("take error");
                OpEvent::ErrorTaken(Some("bad shape".to_string()))
            }
            OpState::Done(_) => break,
        };
        op = op.step(instruments, event, &at(), &here());
    }
    (op, steps)
}

fn new_array() -> MaybeUninitArray {
    MaybeUninitArray::new(MlxArray { ctx: 0 })
}

#[test]
fn plain_operation_takes_three_steps() {
    let mut instruments = Instruments::new();
    let (settled, steps) =
        run::<Array, _>(&mut instruments, new_array(), MlxArray { ctx: 5 }, 0);
    assert_eq!(steps, vec!["install handler", "make guard", "call"]);
    assert_eq!(settled.result.unwrap().as_ptr(), MlxArray { ctx: 5 });
    assert!(settled.freed.is_empty());
    assert_eq!(read_op_counter(&instruments), 0);
}

#[test]
fn failed_operation_frees_and_explains() {
    let mut instruments = Instruments::new();
    let (settled, steps) =
        run::<Array, _>(&mut instruments, new_array(), MlxArray { ctx: 5 }, 1);
    assert_eq!(steps, vec!["install handler", "make guard", "call", "take error"]);
    let e = settled.result.unwrap_err();
    assert_eq!(e.what(), "bad shape");
    assert_eq!((e.location.file.as_str(), e.location.line, e.location.column), ("ops.rs", 40, 9));
    assert_eq!(settled.freed, vec![Handle::Array(MlxArray { ctx: 5 })]);
}

#[test]
fn timed_operation_runs_the_clock_around_the_call() {
    let mut instruments = Instruments::new();
    enable_op_breakdown(&mut instruments);
    enable_op_timing(&mut instruments);
    let (_, steps) = run::<Array, _>(&mut instruments, new_array(), MlxArray { ctx: 5 }, 0);
    assert_eq!(
        steps,
        vec![
            "start clock",
            "lock breakdown",
            "install handler",
            "make guard",
            "call",
            "read clock",
            "lock timing",
        ]
    );
    let (settled, steps) =
        run::<Array, _>(&mut instruments, new_array(), MlxArray { ctx: 5 }, -9);
    assert_eq!(steps.len(), 8);
    assert_eq!(steps[7], "take error");
    assert!(settled.result.is_err());
    assert_eq!(read_op_counter(&instruments), 2);
    assert_eq!(take_op_breakdown(&mut instruments), vec![("ops.rs:40".to_string(), 2)]);
    assert_eq!(take_op_timing(&mut instruments), vec![("ops.rs:40".to_string(), 2, 500)]);
    let (_, steps) = run::<Array, _>(&mut instruments, new_array(), MlxArray { ctx: 5 }, 0);
    assert_eq!(steps, vec!["lock breakdown", "install handler", "make guard", "call"]);
}

#[test]
fn busy_tables_are_left_alone() {
    let mut instruments = Instruments::new();
    enable_op_breakdown(&mut instruments);
    let state: OpState<bool, Plain<bool>> = begin_op(&instruments);
    let state =
        try_from_op(&mut instruments, state, OpEvent::BreakdownLocked(false), &at(), &here());
    assert!(matches!(state, OpState::InstallHandler(_)));
    assert_eq!(read_op_counter(&instruments), 1);
    assert!(take_op_breakdown(&mut instruments).is_empty());
}

#[test]
fn handles_of_every_kind_are_handed_on_or_freed() {
    let mut i = Instruments::new();
    let c = MlxVectorArray { ctx: 3 };
    let new = || MaybeUninitVectorArray::new(MlxVectorArray { ctx: 0 });
    assert_eq!(run::<VectorArray, _>(&mut i, new(), c, 0).0.result.unwrap().c_vec, c);
    assert_eq!(run::<VectorArray, _>(&mut i, new(), c, 1).0.freed, vec![Handle::VectorArray(c)]);

    let c = MlxDevice { ctx: 3 };
    let new = || MaybeUninitDevice::new(MlxDevice { ctx: 0 });
    let device = run::<Device, _>(&mut i, new(), c, 0).0;
    assert_eq!(device.result.unwrap().c_device, c);
    assert!(device.freed.is_empty());
    assert_eq!(run::<Device, _>(&mut i, new(), c, 1).0.freed, vec![Handle::Device(c)]);

    let c = MlxStream { ctx: 3 };
    let new = || MaybeUninitStream::new(MlxStream { ctx: 0 });
    let stream = run::<Stream, _>(&mut i, new(), c, 0).0;
    assert_eq!(stream.result.unwrap(), Stream { c_stream: c, borrowed: false });
    assert!(stream.freed.is_empty());
    assert_eq!(run::<Stream, _>(&mut i, new(), c, 1).0.freed, vec![Handle::Stream(c)]);

    let c = MlxClosure { ctx: 3 };
    let new = || MaybeUninitClosure::new(MlxClosure { ctx: 0 });
    assert_eq!(run::<Closure, _>(&mut i, new(), c, 0).0.result.unwrap().c_closure, c);
    assert_eq!(run::<Closure, _>(&mut i, new(), c, 1).0.freed, vec![Handle::Closure(c)]);

    let c = MlxClosureValueAndGrad { ctx: 3 };
    let new = || MaybeUninitClosureValueAndGrad::new(MlxClosureValueAndGrad { ctx: 0 });
    let closure = run::<ClosureValueAndGrad, _>(&mut i, new(), c, 0).0;
    assert_eq!(closure.result.unwrap().c_closure_value_and_grad, c);
    assert_eq!(
        run::<ClosureValueAndGrad, _>(&mut i, new(), c, 1).0.freed,
        vec![Handle::ClosureValueAndGrad(c)]
    );

    let data = MlxMapStringToArray { ctx: 3 };
    let metadata = MlxMapStringToString { ctx: 4 };
    let new = || {
        MaybeUninitSafeTensors::new(
            MlxMapStringToString { ctx: 0 },
            MlxMapStringToArray { ctx: 0 },
        )
    };
    let tensors = run::<SafeTensors, _>(&mut i, new(), (data, metadata), 0).0;
    assert_eq!(tensors.result.unwrap(), SafeTensors { c_metadata: metadata, c_data: data });
    assert_eq!(
        run::<SafeTensors, _>(&mut i, new(), (data, metadata), 1).0.freed,
        vec![Handle::MapStringToString(metadata), Handle::MapStringToArray(data)]
    );
}

#[test]
fn several_arrays_are_handed_on_together() {
    let mut i = Instruments::new();
    let c = |ctx| MlxArray { ctx };
    let settled =
        run::<(Array, Array), _>(&mut i, (new_array(), new_array()), (c(1), c(2)), 0).0;
    let pair = settled.result.unwrap();
    assert_eq!((pair.0.as_ptr(), pair.1.as_ptr()), (c(1), c(2)));
    let settled =
        run::<(Array, Array), _>(&mut i, (new_array(), new_array()), (c(1), c(2)), 1).0;
    assert_eq!(settled.freed, vec![Handle::Array(c(1)), Handle::Array(c(2))]);

    let new = || (new_array(), new_array(), new_array());
    let settled = run::<(Array, Array, Array), _>(&mut i, new(), (c(1), c(2), c(3)), 0).0;
    let triple = settled.result.unwrap();
    assert_eq!(
        (triple.0.as_ptr(), triple.1.as_ptr(), triple.2.as_ptr()),
        (c(1), c(2), c(3))
    );
    let settled = run::<(Array, Array, Array), _>(&mut i, new(), (c(1), c(2), c(3)), 1).0;
    assert_eq!(
        settled.freed,
        vec![Handle::Array(c(1)), Handle::Array(c(2)), Handle::Array(c(3))]
    );
}

#[test]
fn plain_values_are_handed_on() {
    let mut i = Instruments::new();
    let settled = run::<u64, _>(&mut i, Plain { value: 0u64 }, u64::MAX, 0).0;
    assert_eq!(settled.result.unwrap(), u64::MAX);
    let settled = run::<f32, _>(&mut i, Plain { value: 0f32 }, 1.5, 0).0;
    assert_eq!(settled.result.unwrap(), 1.5);
    let settled = run::<bool, _>(&mut i, Plain { value: false }, true, 2).0;
    assert!(settled.result.is_err());
    assert!(settled.freed.is_empty());
}

#[test]
fn device_types_are_told_apart() {
    let mut i = Instruments::new();
    let mut kind = |raw: u32| run::<DeviceType, u32>(&mut i, 0, raw, 0).0.result;
    assert_eq!(kind(MLX_CPU).unwrap(), DeviceType::Cpu);
    assert_eq!(kind(MLX_GPU).unwrap(), DeviceType::Gpu);
    let e = kind(2).unwrap_err();
    assert_eq!(e.what(), "Unknown device type");
    assert_eq!((e.location.file.as_str(), e.location.line), ("guard.rs", 2));
}

#[test]
fn brain_floats_keep_their_bits() {
    let mut i = Instruments::new();
    for bits in [0u16, 1, 0x3f80, 0x7fc1, 0xffff] {
        let value = run::<half::bf16, u16>(&mut i, 0, bits, 0).0.result.unwrap();
        assert_eq!(value.to_bits(), bits);
    }
    let one = run::<half::bf16, u16>(&mut i, 0, 0x3f80, 0).0.result.unwrap();
    assert_eq!(one.to_f32(), 1.0);
}

#[test]
fn guards_say_what_they_free() {
    let mut guard = new_array();
    guard.fill(MlxArray { ctx: 6 });
    assert_eq!(guard.on_drop(), vec![Handle::Array(MlxArray { ctx: 6 })]);
    guard.set_init_success(true);
    assert!(guard.on_drop().is_empty());
    guard.set_init_success(false);
    assert_eq!(guard.on_drop(), vec![Handle::Array(MlxArray { ctx: 6 })]);
}

fn extraction(ctx: usize) -> VectorExtraction {
    let mut i = Instruments::new();
    let guard = MaybeUninitVectorArray::new(MlxVectorArray { ctx: 0 });
    let settled = run::<VectorExtraction, _>(&mut i, guard, MlxVectorArray { ctx }, 0).0;
    assert!(settled.freed.is_empty());
    settled.result.unwrap()
}

fn freed_array(ctx: usize) -> Handle {
    Handle::Array(MlxArray { ctx })
}

fn freed_vector(ctx: usize) -> Handle {
    Handle::VectorArray(MlxVectorArray { ctx })
}

fn handles(arrays: &[Array]) -> Vec<usize> {
    arrays.iter().map(|a| a.as_ptr().ctx).collect()
}

#[test]
fn vector_is_extracted_element_by_element() {
    let vec = MlxVectorArray { ctx: 9 };
    let mut e = extraction(9);
    assert_eq!(e.next(), Some(VectorCall::Size(vec)));
    e = e.sized(3);
    for index in 0..3 {
        assert_eq!(e.next(), Some(VectorCall::Get(vec, index)));
        e = e.got(Ok(Array::from_ptr(MlxArray { ctx: 100 + index }))).ok().unwrap();
    }
    assert_eq!(e.next(), None);
    let end = e.finish();
    assert_eq!(handles(&end.result.unwrap()), vec![100, 101, 102]);
    assert_eq!(end.freed, vec![Handle::VectorArray(vec)]);
}

#[test]
fn empty_vector_is_freed() {
    let e = extraction(9).sized(0);
    assert_eq!(e.next(), None);
    let end = e.finish();
    assert!(end.result.unwrap().is_empty());
    assert_eq!(end.freed, vec![Handle::VectorArray(MlxVectorArray { ctx: 9 })]);
}

fn error(what: &str) -> mlx_metal::error::Exception {
    mlx_metal::error::Exception::custom(what.to_string(), &at())
}

#[test]
fn vector_extraction_stops_at_the_first_failure() {
    let e = extraction(9).sized(3);
    let e = e.got(Ok(Array::from_ptr(MlxArray { ctx: 100 }))).ok().unwrap();
    let end: Settled<Vec<Array>> = e.got(Err(error("lost"))).err().unwrap();
    assert_eq!(end.result.unwrap_err().what(), "lost");
    assert_eq!(end.freed, vec![freed_array(100), freed_vector(9)]);
}

fn pair() -> VectorPairExtraction {
    let mut i = Instruments::new();
    let new = || MaybeUninitVectorArray::new(MlxVectorArray { ctx: 0 });
    let raw = (MlxVectorArray { ctx: 1 }, MlxVectorArray { ctx: 2 });
    let settled = run::<VectorPairExtraction, _>(&mut i, (new(), new()), raw, 0).0;
    assert!(settled.freed.is_empty());
    settled.result.unwrap()
}

/// Runs an extraction of two vectors of two elements each; the operation number `fail` fails.
fn run_pair(fail: Option<usize>) -> (Vec<Handle>, Settled<(Vec<Array>, Vec<Array>)>) {
    let mut freed = Vec::new();
    let mut e = pair();
    let mut gets = 0;
    loop {
        match e.step() {
            PairStep::Call(next, VectorCall::Size(_)) => e = next.sized(2),
            PairStep::Call(next, VectorCall::Get(vec, index)) => {
                let element = if fail == Some(gets) {
                    Err(error("lost"))
                } else {
                    Ok(Array::from_ptr(MlxArray { ctx: 10 * vec.ctx + index }))
                };
                gets += 1;
                match next.got(element) {
                    Ok(next) => e = next,
                    Err(end) => return (freed, end),
                }
            }
            PairStep::Free(next, handle) => {
                freed.push(handle);
                e = next;
            }
            PairStep::Done(end) => return (freed, end),
        }
    }
}

#[test]
fn two_vectors_are_extracted_one_after_the_other() {
    let (freed, end) = run_pair(None);
    let (first, second) = end.result.unwrap();
    assert_eq!(handles(&first), vec![10, 11]);
    assert_eq!(handles(&second), vec![20, 21]);
    assert_eq!(freed, vec![Handle::VectorArray(MlxVectorArray { ctx: 1 })]);
    assert_eq!(end.freed, vec![Handle::VectorArray(MlxVectorArray { ctx: 2 })]);
}

#[test]
fn failure_in_the_second_vector_drops_both() {
    let (freed, end) = run_pair(Some(3));
    assert!(end.result.is_err());
    assert_eq!(freed, vec![freed_vector(1)]);
    assert_eq!(
        end.freed,
        vec![freed_array(20), freed_vector(2), freed_array(10), freed_array(11)]
    );
}

#[test]
fn failure_in_the_first_vector_leaves_the_second() {
    let (freed, end) = run_pair(Some(1));
    assert!(end.result.is_err());
    assert!(freed.is_empty());
    assert_eq!(end.freed, vec![freed_array(10), freed_vector(1)]);
}

type Encode = fn(&Instruments, &Array, &Stream) -> FusedOp;

const ENCODERS: [Encode; 3] = [
    |i, a, s| lumen_turboquant_encode_fused(i, a, a, s),
    |i, a, s| lumen_turboquant_rot_encode_fused(i, a, a, a, s),
    |i, a, s| lumen_turboquant_encode_fused_packed4(i, a, a, s),
];

/// Runs a fused kernel that leaves the handles 21 and 22 behind.
fn encode(
    instruments: &mut Instruments,
    encoder: Encode,
    status: i32,
) -> Settled<(Array, Array)> {
    let input = Array::from_ptr(MlxArray { ctx: 1 });
    let stream = Stream { c_stream: MlxStream { ctx: 2 }, borrowed: false };
    let op = encoder(instruments, &input, &stream);
    let guards = FusedGuards::new(MlxArray { ctx: 0 }, MlxArray { ctx: 0 });
    let call = op.call;
    let (op, _) = run_op(
        instruments,
        op,
        guards,
        (MlxArray { ctx: 21 }, MlxArray { ctx: 22 }),
        status,
    );
    assert_eq!(op.call, call);
    match op.state {
        OpState::Done(settled) => settled,
        _ => unreachable!(),
    }
}

#[test]
fn fused_kernels_give_both_arrays_or_free_both() {
    for encoder in ENCODERS {
        let mut instruments = Instruments::new();
        let settled = encode(&mut instruments, encoder, 0);
        let (codes, sigma) = settled.result.unwrap();
        assert_eq!((codes.as_ptr().ctx, sigma.as_ptr().ctx), (21, 22));
        assert!(settled.freed.is_empty());
        let settled = encode(&mut instruments, encoder, 1);
        assert_eq!(settled.result.unwrap_err().what(), "bad shape");
        assert_eq!(
            settled.freed,
            vec![Handle::Array(MlxArray { ctx: 22 }), Handle::Array(MlxArray { ctx: 21 })]
        );
        assert_eq!(read_op_counter(&instruments), 0);
    }
}

#[test]
fn fused_kernels_are_counted_and_timed() {
    let mut instruments = Instruments::new();
    enable_op_breakdown(&mut instruments);
    enable_op_timing(&mut instruments);
    for encoder in ENCODERS {
        encode(&mut instruments, encoder, 0);
        encode(&mut instruments, encoder, 1);
    }
    assert_eq!(read_op_counter(&instruments), 6);
    assert_eq!(take_op_breakdown(&mut instruments), vec![("ops.rs:40".to_string(), 6)]);
    assert_eq!(take_op_timing(&mut instruments), vec![("ops.rs:40".to_string(), 6, 1500)]);
}

#[test]
fn kernels_are_run_as_operations() {
    let mut instruments = Instruments::new();
    enable_op_breakdown(&mut instruments);
    let input = Array::from_ptr(MlxArray { ctx: 1 });
    let stream = Stream { c_stream: MlxStream { ctx: 2 }, borrowed: false };
    for (status, count) in [(0, 1), (1, 2)] {
        let op = lumen_turboquant_encode(&instruments, &input, &input, &stream);
        let call = op.call;
        let (op, steps) =
            run_op(&mut instruments, op, new_array(), MlxArray { ctx: 31 }, status);
        assert_eq!(op.call, call);
        assert_eq!(steps[0], "lock breakdown");
        assert_eq!(read_op_counter(&instruments), count);
        match op.state {
            OpState::Done(settled) if status == 0 => {
                assert_eq!(settled.result.unwrap().as_ptr().ctx, 31);
            }
            OpState::Done(settled) => {
                assert!(settled.result.is_err());
                assert_eq!(settled.freed, vec![Handle::Array(MlxArray { ctx: 31 })]);
            }
            _ => unreachable!(),
        }
    }
}

#[test]
fn elements_are_fetched_by_operations() {
    let mut instruments = Instruments::new();
    enable_op_breakdown(&mut instruments);
    let call = VectorCall::Get(MlxVectorArray { ctx: 9 }, 4);
    let op = call.begin_get(&instruments);
    let (op, _) = run_op(&mut instruments, op, new_array(), MlxArray { ctx: 32 }, 0);
    assert_eq!(op.call, call);
    assert_eq!(read_op_counter(&instruments), 1);
}

#[test]
fn nested_operations_are_all_counted() {
    let mut instruments = Instruments::new();
    enable_op_breakdown(&mut instruments);
    let outer = begin_op::<Array, MaybeUninitArray>(&instruments);
    let outer =
        try_from_op(&mut instruments, outer, OpEvent::BreakdownLocked(true), &at(), &here());
    let outer = try_from_op(&mut instruments, outer, OpEvent::HandlerInstalled, &at(), &here());
    let outer =
        try_from_op(&mut instruments, outer, OpEvent::GuardMade(new_array()), &at(), &here());
    let inner = run::<Array, _>(&mut instruments, new_array(), MlxArray { ctx: 5 }, 0).0;
    assert_eq!(inner.result.unwrap().as_ptr().ctx, 5);
    let returned = OpEvent::Returned(MlxArray { ctx: 6 }, 0);
    match try_from_op(&mut instruments, outer, returned, &at(), &here()) {
        OpState::Done(settled) => assert_eq!(settled.result.unwrap().as_ptr().ctx, 6),
        _ => panic!("not done"),
    }
    assert_eq!(read_op_counter(&instruments), 2);
    assert_eq!(take_op_breakdown(&mut instruments), vec![("ops.rs:40".to_string(), 2)]);
}

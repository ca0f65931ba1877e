//! What each kind of operation gives to its caller, and what it frees.

use vstd::prelude::*;

use crate::error::{Exception, Location};
use crate::guard::{
    bf16_of_bits, Guard, MaybeUninitArray, MaybeUninitClosure, MaybeUninitClosureValueAndGrad,
    MaybeUninitDevice, MaybeUninitSafeTensors, MaybeUninitStream, MaybeUninitVectorArray, Plain,
};
use crate::handles::{
    Array, Closure, ClosureValueAndGrad, Device, DeviceType, Handle, MlxArray, SafeTensors, Stream,
    VectorArray,
};
use crate::laws::operations::OpRun;
use crate::laws::runs::{failed_at, operation_ends_as_its_call_did};
use crate::laws::text::is_error;
use crate::metal::lumen::FusedGuards;
use crate::vector::{VectorExtraction, VectorPairExtraction};

verus! {

/// An operation with an array as its result gives it to its caller where the status of its call is
/// zero, exactly as the call wrote it and whatever that is, and frees nothing. It fails where the
/// status is anything else, and nowhere else, with the message that MLX left behind and the place
/// of the operation, and frees exactly what the call wrote.
pub proof fn array_operation_ends_well(run: OpRun<Array, MaybeUninitArray>)
    requires
        run.wf(),
    ensures
        run.status() == 0 ==> {
            &&& run.end().result matches Ok(value)
            &&& value.c_array == run.raw()
            &&& run.end().freed@ == Seq::<Handle>::empty()
        },
        run.status() != 0 ==> {
            &&& failed_at(run.end().result, run.message(), run.at)
            &&& run.end().freed@ == seq![Handle::Array(run.raw())]
        },
{
    operation_ends_as_its_call_did(run);
}

/// An operation with a vector of arrays as its result gives it to its caller where the status of
/// its call is zero, exactly as the call wrote it and whatever that is, and frees nothing. It fails
/// where the status is anything else, and nowhere else, with the message that MLX left behind and
/// the place of the operation, and frees exactly what the call wrote.
pub proof fn vector_array_operation_ends_well(run: OpRun<VectorArray, MaybeUninitVectorArray>)
    requires
        run.wf(),
    ensures
        run.status() == 0 ==> {
            &&& run.end().result matches Ok(value)
            &&& value.c_vec == run.raw()
            &&& run.end().freed@ == Seq::<Handle>::empty()
        },
        run.status() != 0 ==> {
            &&& failed_at(run.end().result, run.message(), run.at)
            &&& run.end().freed@ == seq![Handle::VectorArray(run.raw())]
        },
{
    operation_ends_as_its_call_did(run);
}

/// An operation with a device as its result gives it to its caller where the status of its call is
/// zero, exactly as the call wrote it and whatever that is, and frees nothing. It fails where the
/// status is anything else, and nowhere else, with the message that MLX left behind and the place
/// of the operation, and frees exactly what the call wrote.
pub proof fn device_operation_ends_well(run: OpRun<Device, MaybeUninitDevice>)
    requires
        run.wf(),
    ensures
        run.status() == 0 ==> {
            &&& run.end().result matches Ok(value)
            &&& value.c_device == run.raw()
            &&& run.end().freed@ == Seq::<Handle>::empty()
        },
        run.status() != 0 ==> {
            &&& failed_at(run.end().result, run.message(), run.at)
            &&& run.end().freed@ == seq![Handle::Device(run.raw())]
        },
{
    operation_ends_as_its_call_did(run);
}

/// An operation with a stream as its result gives it to its caller where the status of its call is
/// zero, exactly as the call wrote it and whatever that is, and frees nothing. It fails where the
/// status is anything else, and nowhere else, with the message that MLX left behind and the place
/// of the operation, and frees exactly what the call wrote.
pub proof fn stream_operation_ends_well(run: OpRun<Stream, MaybeUninitStream>)
    requires
        run.wf(),
    ensures
        run.status() == 0 ==> {
            &&& run.end().result matches Ok(value)
            &&& value.c_stream == run.raw()
            &&& !value.borrowed
            &&& run.end().freed@ == Seq::<Handle>::empty()
        },
        run.status() != 0 ==> {
            &&& failed_at(run.end().result, run.message(), run.at)
            &&& run.end().freed@ == seq![Handle::Stream(run.raw())]
        },
{
    operation_ends_as_its_call_did(run);
}

/// An operation with a closure as its result gives it to its caller where the status of its call is
/// zero, exactly as the call wrote it and whatever that is, and frees nothing. It fails where the
/// status is anything else, and nowhere else, with the message that MLX left behind and the place
/// of the operation, and frees exactly what the call wrote.
pub proof fn closure_operation_ends_well(run: OpRun<Closure, MaybeUninitClosure>)
    requires
        run.wf(),
    ensures
        run.status() == 0 ==> {
            &&& run.end().result matches Ok(value)
            &&& value.c_closure == run.raw()
            &&& run.end().freed@ == Seq::<Handle>::empty()
        },
        run.status() != 0 ==> {
            &&& failed_at(run.end().result, run.message(), run.at)
            &&& run.end().freed@ == seq![Handle::Closure(run.raw())]
        },
{
    operation_ends_as_its_call_did(run);
}

/// An operation with a closure for value and gradient as its result gives it to its caller where
/// the status of its call is zero, exactly as the call wrote it and whatever that is, and frees
/// nothing. It fails where the status is anything else, and nowhere else, with the message that MLX
/// left behind and the place of the operation, and frees exactly what the call wrote.
pub proof fn closure_value_and_grad_operation_ends_well(
    run: OpRun<ClosureValueAndGrad, MaybeUninitClosureValueAndGrad>,
)
    requires
        run.wf(),
    ensures
        run.status() == 0 ==> {
            &&& run.end().result matches Ok(value)
            &&& value.c_closure_value_and_grad == run.raw()
            &&& run.end().freed@ == Seq::<Handle>::empty()
        },
        run.status() != 0 ==> {
            &&& failed_at(run.end().result, run.message(), run.at)
            &&& run.end().freed@ == seq![Handle::ClosureValueAndGrad(run.raw())]
        },
{
    operation_ends_as_its_call_did(run);
}

/// An operation with safetensors as its result gives it to its caller where the status of its call
/// is zero, exactly as the call wrote it and whatever that is, and frees nothing. It fails where
/// the status is anything else, and nowhere else, with the message that MLX left behind and the
/// place of the operation, and frees exactly what the call wrote.
pub proof fn safetensors_operation_ends_well(run: OpRun<SafeTensors, MaybeUninitSafeTensors>)
    requires
        run.wf(),
    ensures
        run.status() == 0 ==> {
            &&& run.end().result matches Ok(value)
            &&& value.c_data == run.raw().0
            &&& value.c_metadata == run.raw().1
            &&& run.end().freed@ == Seq::<Handle>::empty()
        },
        run.status() != 0 ==> {
            &&& failed_at(run.end().result, run.message(), run.at)
            &&& run.end().freed@ == seq![
                Handle::MapStringToString(run.raw().1),
                Handle::MapStringToArray(run.raw().0),
            ]
        },
{
    operation_ends_as_its_call_did(run);
}

/// An operation with two arrays as its result gives it to its caller where the status of its call
/// is zero, exactly as the call wrote it and whatever that is, and frees nothing. It fails where
/// the status is anything else, and nowhere else, with the message that MLX left behind and the
/// place of the operation, and frees exactly what the call wrote.
pub proof fn pair_operation_ends_well(
    run: OpRun<(Array, Array), (MaybeUninitArray, MaybeUninitArray)>,
)
    requires
        run.wf(),
    ensures
        run.status() == 0 ==> {
            &&& run.end().result matches Ok(value)
            &&& value.0.c_array == run.raw().0
            &&& value.1.c_array == run.raw().1
            &&& run.end().freed@ == Seq::<Handle>::empty()
        },
        run.status() != 0 ==> {
            &&& failed_at(run.end().result, run.message(), run.at)
            &&& run.end().freed@ == seq![Handle::Array(run.raw().0), Handle::Array(run.raw().1)]
        },
{
    operation_ends_as_its_call_did(run);
}

/// An operation with three arrays as its result gives it to its caller where the status of its call
/// is zero, exactly as the call wrote it and whatever that is, and frees nothing. It fails where
/// the status is anything else, and nowhere else, with the message that MLX left behind and the
/// place of the operation, and frees exactly what the call wrote.
pub proof fn triple_operation_ends_well(
    run: OpRun<(Array, Array, Array), (MaybeUninitArray, MaybeUninitArray, MaybeUninitArray)>,
)
    requires
        run.wf(),
    ensures
        run.status() == 0 ==> {
            &&& run.end().result matches Ok(value)
            &&& value.0.c_array == run.raw().0
            &&& value.1.c_array == run.raw().1
            &&& value.2.c_array == run.raw().2
            &&& run.end().freed@ == Seq::<Handle>::empty()
        },
        run.status() != 0 ==> {
            &&& failed_at(run.end().result, run.message(), run.at)
            &&& run.end().freed@ == seq![
                Handle::Array(run.raw().0),
                Handle::Array(run.raw().1),
                Handle::Array(run.raw().2),
            ]
        },
{
    operation_ends_as_its_call_did(run);
}

/// An operation with the codes and the deviations of a fused kernel as its result gives it to its
/// caller where the status of its call is zero, exactly as the call wrote it and whatever that is,
/// and frees nothing. It fails where the status is anything else, and nowhere else, with the
/// message that MLX left behind and the place of the operation, and frees exactly what the call
/// wrote.
pub proof fn fused_kernel_operation_ends_well(run: OpRun<(Array, Array), FusedGuards>)
    requires
        run.wf(),
    ensures
        run.status() == 0 ==> {
            &&& run.end().result matches Ok(value)
            &&& value.0.c_array == run.raw().0
            &&& value.1.c_array == run.raw().1
            &&& run.end().freed@ == Seq::<Handle>::empty()
        },
        run.status() != 0 ==> {
            &&& failed_at(run.end().result, run.message(), run.at)
            &&& run.end().freed@ == seq![Handle::Array(run.raw().1), Handle::Array(run.raw().0)]
        },
{
    operation_ends_as_its_call_did(run);
}

/// An operation with a plain value as its result gives it to its caller where the status of its
/// call is zero, exactly as the call wrote it and whatever that is, and frees nothing. It fails
/// where the status is anything else, and nowhere else, with the message that MLX left behind and
/// the place of the operation, and frees nothing.
pub proof fn plain_operation_ends_well<T>(run: OpRun<T, Plain<T>>)
    requires
        run.wf(),
    ensures
        run.status() == 0 ==> {
            &&& run.end().result matches Ok(value)
            &&& value == run.raw()
            &&& run.end().freed@ == Seq::<Handle>::empty()
        },
        run.status() != 0 ==> {
            &&& failed_at(run.end().result, run.message(), run.at)
            &&& run.end().freed@ == Seq::<Handle>::empty()
        },
{
    operation_ends_as_its_call_did(run);
}

/// An operation with a 16-bit brain float as its result gives it to its caller where the status of
/// its call is zero, exactly as the call wrote it and whatever that is, and frees nothing. It fails
/// where the status is anything else, and nowhere else, with the message that MLX left behind and
/// the place of the operation, and frees nothing.
pub proof fn bf16_operation_ends_well(run: OpRun<half::bf16, u16>)
    requires
        run.wf(),
    ensures
        run.status() == 0 ==> {
            &&& run.end().result matches Ok(value)
            &&& value == bf16_of_bits(run.raw())
            &&& run.end().freed@ == Seq::<Handle>::empty()
        },
        run.status() != 0 ==> {
            &&& failed_at(run.end().result, run.message(), run.at)
            &&& run.end().freed@ == Seq::<Handle>::empty()
        },
{
    operation_ends_as_its_call_did(run);
}

/// An operation with the kind of a device as its result knows two kinds, zero for the processor and
/// one for the graphics processor. A call that succeeded with any other number is an error, and so
/// is a call that failed.
pub proof fn device_type_operation_ends_well(run: OpRun<DeviceType, u32>)
    requires
        run.wf(),
    ensures
        run.end().freed@ == Seq::<Handle>::empty(),
        run.status() == 0 && run.raw() == 0 ==> run.end().result == Ok::<DeviceType, Exception>(
            DeviceType::Cpu,
        ),
        run.status() == 0 && run.raw() == 1 ==> run.end().result == Ok::<DeviceType, Exception>(
            DeviceType::Gpu,
        ),
        run.status() == 0 && run.raw() > 1 ==> failed_at(
            run.end().result,
            "Unknown device type"@,
            run.here,
        ),
        run.status() != 0 ==> failed_at(run.end().result, run.message(), run.at),
{
    operation_ends_as_its_call_did(run);
}

/// An operation whose vector is to be extracted begins the extraction of exactly the vector that
/// the call wrote, where the status of its call is zero. Otherwise it fails and frees the vector.
pub proof fn vector_operation_ends_well(run: OpRun<VectorExtraction, MaybeUninitVectorArray>)
    requires
        run.wf(),
    ensures
        run.status() == 0 ==> {
            &&& run.end().result matches Ok(extraction)
            &&& extraction@.c_vec == run.raw()
            &&& extraction@.size is None
            &&& extraction@.arrays.len() == 0
            &&& run.end().freed@ == Seq::<Handle>::empty()
        },
        run.status() != 0 ==> {
            &&& failed_at(run.end().result, run.message(), run.at)
            &&& run.end().freed@ == seq![Handle::VectorArray(run.raw())]
        },
{
    operation_ends_as_its_call_did(run);
}

/// An operation whose two vectors are to be extracted begins with the first that the call wrote
/// and keeps the second, where the status of its call is zero. Otherwise it fails and frees both.
pub proof fn vector_pair_operation_ends_well(
    run: OpRun<VectorPairExtraction, (MaybeUninitVectorArray, MaybeUninitVectorArray)>,
)
    requires
        run.wf(),
    ensures
        run.status() == 0 ==> {
            &&& run.end().result matches Ok(extraction)
            &&& extraction@.first is None
            &&& extraction@.current.c_vec == run.raw().0
            &&& extraction@.current.size is None
            &&& extraction@.current.arrays.len() == 0
            &&& extraction@.second == run.raw().1
            &&& run.end().freed@ == Seq::<Handle>::empty()
        },
        run.status() != 0 ==> {
            &&& failed_at(run.end().result, run.message(), run.at)
            &&& run.end().freed@ == seq![
                Handle::VectorArray(run.raw().0),
                Handle::VectorArray(run.raw().1),
            ]
        },
{
    operation_ends_as_its_call_did(run);
}

/// A guard around an array is filled with what the call wrote, frees it as long as it is not marked
/// as a success, and frees nothing once it is; then it hands on exactly what it holds.
pub proof fn array_guard_frees_or_hands_on(
    filled: &mut MaybeUninitArray,
    raw: <MaybeUninitArray as Guard<Array>>::Raw,
    marked: &mut MaybeUninitArray,
    success: bool,
    guard: MaybeUninitArray,
    freed: Vec<Handle>,
    here: &Location,
    result: Result<Array, Exception>,
)
    requires
        call_ensures(<MaybeUninitArray as Guard<Array>>::fill, (filled, raw), ()),
        call_ensures(<MaybeUninitArray as Guard<Array>>::set_init_success, (marked, success), ()),
        call_ensures(<MaybeUninitArray as Guard<Array>>::on_drop, (&guard,), freed),
        call_ensures(<MaybeUninitArray as Guard<Array>>::try_into_guarded, (guard, here), result),
    ensures
        final(filled).ptr == raw,
        final(marked).ptr == old(marked).ptr,
        final(filled).init_success == old(filled).init_success,
        final(marked).init_success == success,
        guard.init_success ==> freed@ == Seq::<Handle>::empty(),
        !guard.init_success ==> freed@ == seq![Handle::Array(guard.ptr)],
        result matches Ok(value) && (value.c_array == guard.ptr),
{
}

/// A guard around a vector of arrays is filled with what the call wrote, frees it as long as it is
/// not marked as a success, and frees nothing once it is; then it hands on exactly what it holds.
pub proof fn vector_array_guard_frees_or_hands_on(
    filled: &mut MaybeUninitVectorArray,
    raw: <MaybeUninitVectorArray as Guard<VectorArray>>::Raw,
    marked: &mut MaybeUninitVectorArray,
    success: bool,
    guard: MaybeUninitVectorArray,
    freed: Vec<Handle>,
    here: &Location,
    result: Result<VectorArray, Exception>,
)
    requires
        call_ensures(<MaybeUninitVectorArray as Guard<VectorArray>>::fill, (filled, raw), ()),
        call_ensures(
            <MaybeUninitVectorArray as Guard<VectorArray>>::set_init_success,
            (marked, success),
            (),
        ),
        call_ensures(<MaybeUninitVectorArray as Guard<VectorArray>>::on_drop, (&guard,), freed),
        call_ensures(
            <MaybeUninitVectorArray as Guard<VectorArray>>::try_into_guarded,
            (guard, here),
            result,
        ),
    ensures
        final(filled).ptr == raw,
        final(marked).ptr == old(marked).ptr,
        final(filled).init_success == old(filled).init_success,
        final(marked).init_success == success,
        guard.init_success ==> freed@ == Seq::<Handle>::empty(),
        !guard.init_success ==> freed@ == seq![Handle::VectorArray(guard.ptr)],
        result matches Ok(value) && (value.c_vec == guard.ptr),
{
}

/// A guard around a device is filled with what the call wrote, frees it as long as it is not marked
/// as a success, and frees nothing once it is; then it hands on exactly what it holds.
pub proof fn device_guard_frees_or_hands_on(
    filled: &mut MaybeUninitDevice,
    raw: <MaybeUninitDevice as Guard<Device>>::Raw,
    marked: &mut MaybeUninitDevice,
    success: bool,
    guard: MaybeUninitDevice,
    freed: Vec<Handle>,
    here: &Location,
    result: Result<Device, Exception>,
)
    requires
        call_ensures(<MaybeUninitDevice as Guard<Device>>::fill, (filled, raw), ()),
        call_ensures(<MaybeUninitDevice as Guard<Device>>::set_init_success, (marked, success), ()),
        call_ensures(<MaybeUninitDevice as Guard<Device>>::on_drop, (&guard,), freed),
        call_ensures(<MaybeUninitDevice as Guard<Device>>::try_into_guarded, (guard, here), result),
    ensures
        final(filled).ptr == raw,
        final(marked).ptr == old(marked).ptr,
        final(filled).init_success == old(filled).init_success,
        final(marked).init_success == success,
        guard.init_success ==> freed@ == Seq::<Handle>::empty(),
        !guard.init_success ==> freed@ == seq![Handle::Device(guard.ptr)],
        result matches Ok(value) && (value.c_device == guard.ptr),
{
}

/// A guard around a stream is filled with what the call wrote, frees it as long as it is not marked
/// as a success, and frees nothing once it is; then it hands on exactly what it holds.
pub proof fn stream_guard_frees_or_hands_on(
    filled: &mut MaybeUninitStream,
    raw: <MaybeUninitStream as Guard<Stream>>::Raw,
    marked: &mut MaybeUninitStream,
    success: bool,
    guard: MaybeUninitStream,
    freed: Vec<Handle>,
    here: &Location,
    result: Result<Stream, Exception>,
)
    requires
        call_ensures(<MaybeUninitStream as Guard<Stream>>::fill, (filled, raw), ()),
        call_ensures(<MaybeUninitStream as Guard<Stream>>::set_init_success, (marked, success), ()),
        call_ensures(<MaybeUninitStream as Guard<Stream>>::on_drop, (&guard,), freed),
        call_ensures(<MaybeUninitStream as Guard<Stream>>::try_into_guarded, (guard, here), result),
    ensures
        final(filled).ptr == raw,
        final(marked).ptr == old(marked).ptr,
        final(filled).init_success == old(filled).init_success,
        final(marked).init_success == success,
        guard.init_success ==> freed@ == Seq::<Handle>::empty(),
        !guard.init_success ==> freed@ == seq![Handle::Stream(guard.ptr)],
        result matches Ok(value) && (value.c_stream == guard.ptr && !value.borrowed),
{
}

/// A guard around a closure is filled with what the call wrote, frees it as long as it is not
/// marked as a success, and frees nothing once it is; then it hands on exactly what it holds.
pub proof fn closure_guard_frees_or_hands_on(
    filled: &mut MaybeUninitClosure,
    raw: <MaybeUninitClosure as Guard<Closure>>::Raw,
    marked: &mut MaybeUninitClosure,
    success: bool,
    guard: MaybeUninitClosure,
    freed: Vec<Handle>,
    here: &Location,
    result: Result<Closure, Exception>,
)
    requires
        call_ensures(<MaybeUninitClosure as Guard<Closure>>::fill, (filled, raw), ()),
        call_ensures(
            <MaybeUninitClosure as Guard<Closure>>::set_init_success,
            (marked, success),
            (),
        ),
        call_ensures(<MaybeUninitClosure as Guard<Closure>>::on_drop, (&guard,), freed),
        call_ensures(
            <MaybeUninitClosure as Guard<Closure>>::try_into_guarded,
            (guard, here),
            result,
        ),
    ensures
        final(filled).ptr == raw,
        final(marked).ptr == old(marked).ptr,
        final(filled).init_success == old(filled).init_success,
        final(marked).init_success == success,
        guard.init_success ==> freed@ == Seq::<Handle>::empty(),
        !guard.init_success ==> freed@ == seq![Handle::Closure(guard.ptr)],
        result matches Ok(value) && (value.c_closure == guard.ptr),
{
}

/// A guard around a closure for value and gradient is filled with what the call wrote, frees it as
/// long as it is not marked as a success, and frees nothing once it is; then it hands on exactly
/// what it holds.
pub proof fn closure_value_and_grad_guard_frees_or_hands_on(
    filled: &mut MaybeUninitClosureValueAndGrad,
    raw: <MaybeUninitClosureValueAndGrad as Guard<ClosureValueAndGrad>>::Raw,
    marked: &mut MaybeUninitClosureValueAndGrad,
    success: bool,
    guard: MaybeUninitClosureValueAndGrad,
    freed: Vec<Handle>,
    here: &Location,
    result: Result<ClosureValueAndGrad, Exception>,
)
    requires
        call_ensures(
            <MaybeUninitClosureValueAndGrad as Guard<ClosureValueAndGrad>>::fill,
            (filled, raw),
            (),
        ),
        call_ensures(
            <MaybeUninitClosureValueAndGrad as Guard<ClosureValueAndGrad>>::set_init_success,
            (marked, success),
            (),
        ),
        call_ensures(
            <MaybeUninitClosureValueAndGrad as Guard<ClosureValueAndGrad>>::on_drop,
            (&guard,),
            freed,
        ),
        call_ensures(
            <MaybeUninitClosureValueAndGrad as Guard<ClosureValueAndGrad>>::try_into_guarded,
            (guard, here),
            result,
        ),
    ensures
        final(filled).ptr == raw,
        final(marked).ptr == old(marked).ptr,
        final(filled).init_success == old(filled).init_success,
        final(marked).init_success == success,
        guard.init_success ==> freed@ == Seq::<Handle>::empty(),
        !guard.init_success ==> freed@ == seq![Handle::ClosureValueAndGrad(guard.ptr)],
        result matches Ok(value) && (value.c_closure_value_and_grad == guard.ptr),
{
}

/// A guard around safetensors is filled with what the call wrote, frees it as long as it is not
/// marked as a success, and frees nothing once it is; then it hands on exactly what it holds.
pub proof fn safetensors_guard_frees_or_hands_on(
    filled: &mut MaybeUninitSafeTensors,
    raw: <MaybeUninitSafeTensors as Guard<SafeTensors>>::Raw,
    marked: &mut MaybeUninitSafeTensors,
    success: bool,
    guard: MaybeUninitSafeTensors,
    freed: Vec<Handle>,
    here: &Location,
    result: Result<SafeTensors, Exception>,
)
    requires
        call_ensures(<MaybeUninitSafeTensors as Guard<SafeTensors>>::fill, (filled, raw), ()),
        call_ensures(
            <MaybeUninitSafeTensors as Guard<SafeTensors>>::set_init_success,
            (marked, success),
            (),
        ),
        call_ensures(<MaybeUninitSafeTensors as Guard<SafeTensors>>::on_drop, (&guard,), freed),
        call_ensures(
            <MaybeUninitSafeTensors as Guard<SafeTensors>>::try_into_guarded,
            (guard, here),
            result,
        ),
    ensures
        final(filled).c_data == raw.0,
        final(marked).c_data == old(marked).c_data,
        final(filled).c_metadata == raw.1,
        final(marked).c_metadata == old(marked).c_metadata,
        final(filled).init_success == old(filled).init_success,
        final(marked).init_success == success,
        guard.init_success ==> freed@ == Seq::<Handle>::empty(),
        !guard.init_success ==> freed@ == seq![
            Handle::MapStringToString(guard.c_metadata),
            Handle::MapStringToArray(guard.c_data),
        ],
        result matches Ok(value) && (
            value.c_data == guard.c_data
            && value.c_metadata == guard.c_metadata
        ),
{
}

/// A guard around a vector that is to be extracted is filled with what the call wrote, frees it as
/// long as it is not marked as a success, and frees nothing once it is; then it hands on exactly
/// what it holds.
pub proof fn vector_extraction_guard_frees_or_hands_on(
    filled: &mut MaybeUninitVectorArray,
    raw: <MaybeUninitVectorArray as Guard<VectorExtraction>>::Raw,
    marked: &mut MaybeUninitVectorArray,
    success: bool,
    guard: MaybeUninitVectorArray,
    freed: Vec<Handle>,
    here: &Location,
    result: Result<VectorExtraction, Exception>,
)
    requires
        call_ensures(<MaybeUninitVectorArray as Guard<VectorExtraction>>::fill, (filled, raw), ()),
        call_ensures(
            <MaybeUninitVectorArray as Guard<VectorExtraction>>::set_init_success,
            (marked, success),
            (),
        ),
        call_ensures(
            <MaybeUninitVectorArray as Guard<VectorExtraction>>::on_drop,
            (&guard,),
            freed,
        ),
        call_ensures(
            <MaybeUninitVectorArray as Guard<VectorExtraction>>::try_into_guarded,
            (guard, here),
            result,
        ),
    ensures
        final(filled).ptr == raw,
        final(marked).ptr == old(marked).ptr,
        final(filled).init_success == old(filled).init_success,
        final(marked).init_success == success,
        guard.init_success ==> freed@ == Seq::<Handle>::empty(),
        !guard.init_success ==> freed@ == seq![Handle::VectorArray(guard.ptr)],
        result matches Ok(value) && (value@.c_vec == guard.ptr && value@.size is None),
{
}

/// Nothing after a success, and the handle otherwise.
pub open spec fn freed_unless(success: bool, handle: Handle) -> Seq<Handle> {
    if success {
        Seq::empty()
    } else {
        seq![handle]
    }
}

/// A guard around two arrays is filled with what the call wrote, part by part. Each part is freed
/// as long as it is not marked as a success, and what is handed on is exactly what the parts hold.
pub proof fn pair_guard_frees_or_hands_on(
    filled: &mut (MaybeUninitArray, MaybeUninitArray),
    raw: <(MaybeUninitArray, MaybeUninitArray) as Guard<(Array, Array)>>::Raw,
    marked: &mut (MaybeUninitArray, MaybeUninitArray),
    success: bool,
    guard: (MaybeUninitArray, MaybeUninitArray),
    freed: Vec<Handle>,
    here: &Location,
    result: Result<(Array, Array), Exception>,
)
    requires
        call_ensures(
            <(MaybeUninitArray, MaybeUninitArray) as Guard<(Array, Array)>>::fill,
            (filled, raw),
            (),
        ),
        call_ensures(
            <(MaybeUninitArray, MaybeUninitArray) as Guard<(Array, Array)>>::set_init_success,
            (marked, success),
            (),
        ),
        call_ensures(
            <(MaybeUninitArray, MaybeUninitArray) as Guard<(Array, Array)>>::on_drop,
            (&guard,),
            freed,
        ),
        call_ensures(
            <(MaybeUninitArray, MaybeUninitArray) as Guard<(Array, Array)>>::try_into_guarded,
            (guard, here),
            result,
        ),
    ensures
        final(filled).0.ptr == raw.0,
        final(filled).0.init_success == old(filled).0.init_success,
        final(marked).0.ptr == old(marked).0.ptr,
        final(marked).0.init_success == success,
        final(filled).1.ptr == raw.1,
        final(filled).1.init_success == old(filled).1.init_success,
        final(marked).1.ptr == old(marked).1.ptr,
        final(marked).1.init_success == success,
        freed@ == freed_unless(guard.0.init_success, Handle::Array(guard.0.ptr))
            + freed_unless(guard.1.init_success, Handle::Array(guard.1.ptr)),
        result matches Ok(value) && (
            value.0.c_array == guard.0.ptr
            && value.1.c_array == guard.1.ptr
        ),
{
}

/// A guard around three arrays is filled with what the call wrote, part by part. Each part is freed
/// as long as it is not marked as a success, and what is handed on is exactly what the parts hold.
pub proof fn triple_guard_frees_or_hands_on(
    filled: &mut (MaybeUninitArray, MaybeUninitArray, MaybeUninitArray),
    raw: (MlxArray, MlxArray, MlxArray),
    marked: &mut (MaybeUninitArray, MaybeUninitArray, MaybeUninitArray),
    success: bool,
    guard: (MaybeUninitArray, MaybeUninitArray, MaybeUninitArray),
    freed: Vec<Handle>,
    here: &Location,
    result: Result<(Array, Array, Array), Exception>,
)
    requires
        call_ensures(
            <(MaybeUninitArray, MaybeUninitArray, MaybeUninitArray) as Guard<(Array, Array, Array)>>::fill,
            (filled, raw),
            (),
        ),
        call_ensures(
            <(MaybeUninitArray, MaybeUninitArray, MaybeUninitArray) as Guard<(Array, Array, Array)>>::set_init_success,
            (marked, success),
            (),
        ),
        call_ensures(
            <(MaybeUninitArray, MaybeUninitArray, MaybeUninitArray) as Guard<(Array, Array, Array)>>::on_drop,
            (&guard,),
            freed,
        ),
        call_ensures(
            <(MaybeUninitArray, MaybeUninitArray, MaybeUninitArray) as Guard<(Array, Array, Array)>>::try_into_guarded,
            (guard, here),
            result,
        ),
    ensures
        final(filled).0.ptr == raw.0,
        final(filled).0.init_success == old(filled).0.init_success,
        final(marked).0.ptr == old(marked).0.ptr,
        final(marked).0.init_success == success,
        final(filled).1.ptr == raw.1,
        final(filled).1.init_success == old(filled).1.init_success,
        final(marked).1.ptr == old(marked).1.ptr,
        final(marked).1.init_success == success,
        final(filled).2.ptr == raw.2,
        final(filled).2.init_success == old(filled).2.init_success,
        final(marked).2.ptr == old(marked).2.ptr,
        final(marked).2.init_success == success,
        freed@ == freed_unless(guard.0.init_success, Handle::Array(guard.0.ptr))
            + freed_unless(guard.1.init_success, Handle::Array(guard.1.ptr))
            + freed_unless(guard.2.init_success, Handle::Array(guard.2.ptr)),
        result matches Ok(value) && (
            value.0.c_array == guard.0.ptr
            && value.1.c_array == guard.1.ptr
            && value.2.c_array == guard.2.ptr
        ),
{
}

/// A guard around the results of a fused kernel is filled with what the call wrote, part by part.
/// Each part is freed as long as it is not marked as a success, and what is handed on is exactly
/// what the parts hold.
pub proof fn fused_guard_frees_or_hands_on(
    filled: &mut FusedGuards,
    raw: <FusedGuards as Guard<(Array, Array)>>::Raw,
    marked: &mut FusedGuards,
    success: bool,
    guard: FusedGuards,
    freed: Vec<Handle>,
    here: &Location,
    result: Result<(Array, Array), Exception>,
)
    requires
        call_ensures(<FusedGuards as Guard<(Array, Array)>>::fill, (filled, raw), ()),
        call_ensures(
            <FusedGuards as Guard<(Array, Array)>>::set_init_success,
            (marked, success),
            (),
        ),
        call_ensures(<FusedGuards as Guard<(Array, Array)>>::on_drop, (&guard,), freed),
        call_ensures(
            <FusedGuards as Guard<(Array, Array)>>::try_into_guarded,
            (guard, here),
            result,
        ),
    ensures
        final(filled).codes.ptr == raw.0,
        final(filled).codes.init_success == old(filled).codes.init_success,
        final(marked).codes.ptr == old(marked).codes.ptr,
        final(marked).codes.init_success == success,
        final(filled).sigma.ptr == raw.1,
        final(filled).sigma.init_success == old(filled).sigma.init_success,
        final(marked).sigma.ptr == old(marked).sigma.ptr,
        final(marked).sigma.init_success == success,
        freed@ == freed_unless(guard.sigma.init_success, Handle::Array(guard.sigma.ptr))
            + freed_unless(guard.codes.init_success, Handle::Array(guard.codes.ptr)),
        result matches Ok(value) && (
            value.0.c_array == guard.codes.ptr
            && value.1.c_array == guard.sigma.ptr
        ),
{
}

/// A guard around two vectors is filled with what the call wrote, part by part. Each part is freed
/// as long as it is not marked as a success, and what is handed on is exactly what the parts hold.
pub proof fn vector_pair_guard_frees_or_hands_on(
    filled: &mut (MaybeUninitVectorArray, MaybeUninitVectorArray),
    raw: <(MaybeUninitVectorArray, MaybeUninitVectorArray) as Guard<VectorPairExtraction>>::Raw,
    marked: &mut (MaybeUninitVectorArray, MaybeUninitVectorArray),
    success: bool,
    guard: (MaybeUninitVectorArray, MaybeUninitVectorArray),
    freed: Vec<Handle>,
    here: &Location,
    result: Result<VectorPairExtraction, Exception>,
)
    requires
        call_ensures(
            <(MaybeUninitVectorArray, MaybeUninitVectorArray) as Guard<VectorPairExtraction>>::fill,
            (filled, raw),
            (),
        ),
        call_ensures(
            <(MaybeUninitVectorArray, MaybeUninitVectorArray) as Guard<VectorPairExtraction>>::set_init_success,
            (marked, success),
            (),
        ),
        call_ensures(
            <(MaybeUninitVectorArray, MaybeUninitVectorArray) as Guard<VectorPairExtraction>>::on_drop,
            (&guard,),
            freed,
        ),
        call_ensures(
            <(MaybeUninitVectorArray, MaybeUninitVectorArray) as Guard<VectorPairExtraction>>::try_into_guarded,
            (guard, here),
            result,
        ),
    ensures
        final(filled).0.ptr == raw.0,
        final(filled).0.init_success == old(filled).0.init_success,
        final(marked).0.ptr == old(marked).0.ptr,
        final(marked).0.init_success == success,
        final(filled).1.ptr == raw.1,
        final(filled).1.init_success == old(filled).1.init_success,
        final(marked).1.ptr == old(marked).1.ptr,
        final(marked).1.init_success == success,
        freed@ == freed_unless(guard.0.init_success, Handle::VectorArray(guard.0.ptr))
            + freed_unless(guard.1.init_success, Handle::VectorArray(guard.1.ptr)),
        result matches Ok(value) && (
            value@.current.c_vec == guard.0.ptr
            && value@.second == guard.1.ptr
            && value@.first is None
        ),
{
}

/// A guard around a plain value takes any value, gives it back as it is, and frees nothing.
pub proof fn plain_guard_gives_back_its_value<T>(
    filled: &mut Plain<T>,
    raw: T,
    marked: &mut Plain<T>,
    success: bool,
    guard: Plain<T>,
    freed: Vec<Handle>,
    here: &Location,
    result: Result<T, Exception>,
)
    requires
        call_ensures(<Plain<T> as Guard<T>>::fill, (filled, raw), ()),
        call_ensures(<Plain<T> as Guard<T>>::set_init_success, (marked, success), ()),
        call_ensures(<Plain<T> as Guard<T>>::on_drop, (&guard,), freed),
        call_ensures(<Plain<T> as Guard<T>>::try_into_guarded, (guard, here), result),
    ensures
        final(filled).value == raw,
        final(marked).value == old(marked).value,
        freed@ == Seq::<Handle>::empty(),
        result == Ok::<T, Exception>(guard.value),
{
}

/// The kind of a device is told by its number, and an unknown number is an error.
pub proof fn device_types_are_told_apart(
    filled: &mut u32,
    raw: u32,
    guard: u32,
    freed: Vec<Handle>,
    here: &Location,
    result: Result<DeviceType, Exception>,
)
    requires
        call_ensures(<u32 as Guard<DeviceType>>::fill, (filled, raw), ()),
        call_ensures(<u32 as Guard<DeviceType>>::on_drop, (&guard,), freed),
        call_ensures(<u32 as Guard<DeviceType>>::try_into_guarded, (guard, here), result),
    ensures
        *final(filled) == raw,
        freed@ == Seq::<Handle>::empty(),
        guard == 0 ==> result == Ok::<DeviceType, Exception>(DeviceType::Cpu),
        guard == 1 ==> result == Ok::<DeviceType, Exception>(DeviceType::Gpu),
        guard > 1 ==> is_error(result, "Unknown device type"@, here),
{
}

/// A 16-bit brain float is made of the bits that the call wrote, and different bits make different
/// floats.
pub proof fn brain_floats_keep_their_bits(
    filled: &mut u16,
    raw: u16,
    first: u16,
    second: u16,
    here: &Location,
    first_result: Result<half::bf16, Exception>,
    second_result: Result<half::bf16, Exception>,
)
    requires
        call_ensures(<u16 as Guard<half::bf16>>::fill, (filled, raw), ()),
        call_ensures(<u16 as Guard<half::bf16>>::try_into_guarded, (first, here), first_result),
        call_ensures(<u16 as Guard<half::bf16>>::try_into_guarded, (second, here), second_result),
    ensures
        *final(filled) == raw,
        first_result matches Ok(value) && value == bf16_of_bits(first),
        second_result matches Ok(value) && value == bf16_of_bits(second),
        first_result == second_result ==> first == second,
{
    let value = first_result->Ok_0;
    assert(bf16_of_bits(second) == second_result->Ok_0);
}

/// A new guard is fresh, whatever handle it is made around.
pub proof fn new_guards_are_fresh(
    array: MaybeUninitArray,
    vector: MaybeUninitVectorArray,
    device: MaybeUninitDevice,
    stream: MaybeUninitStream,
    closure: MaybeUninitClosure,
    closure_value_and_grad: MaybeUninitClosureValueAndGrad,
    safetensors: MaybeUninitSafeTensors,
    fused: FusedGuards,
    codes: MlxArray,
    sigma: MlxArray,
)
    requires
        !vector.init_success,
        !device.init_success,
        !stream.init_success,
        !closure.init_success,
        !closure_value_and_grad.init_success,
        !safetensors.init_success,
        call_ensures(MaybeUninitArray::new, (codes,), array),
        call_ensures(FusedGuards::new, (codes, sigma), fused),
    ensures
        array.fresh() && array.ptr == codes,
        fused.fresh() && fused.codes.ptr == codes && fused.sigma.ptr == sigma,
        <MaybeUninitVectorArray as Guard<VectorArray>>::fresh(&vector),
        <MaybeUninitVectorArray as Guard<VectorExtraction>>::fresh(&vector),
        <(MaybeUninitVectorArray, MaybeUninitVectorArray) as Guard<VectorPairExtraction>>::fresh(
            &(vector, vector),
        ),
        <(MaybeUninitArray, MaybeUninitArray) as Guard<(Array, Array)>>::fresh(&(array, array)),
        <(MaybeUninitArray, MaybeUninitArray, MaybeUninitArray) as Guard<
            (Array, Array, Array),
        >>::fresh(&(array, array, array)),
        device.fresh(),
        stream.fresh(),
        closure.fresh(),
        closure_value_and_grad.fresh(),
        safetensors.fresh(),
{
}

} // verus!

//! Buffers, captures and kernels of the Metal backend.

use vstd::prelude::*;
use vstd::utf8::encode_utf8;

use crate::call::Step;
use crate::error::{Exception, Location};
use crate::handles::{Array, MlxArray, Stream};
use crate::instrument::Instruments;
use crate::laws::queries::path_is_refused_for_its_null_character;
use crate::laws::text::is_error;
use crate::metal::buffers::{
    allocator_free, allocator_malloc, array_from_metal_buffer, current_command_buffer,
    default_command_queue, AdoptCall, BufferCall,
};
use crate::metal::capture::{start_capture, stop_capture, CaptureCall};
use crate::metal::lumen::{
    lumen_flash_attn_bf16, lumen_flash_attn_prefill_bf16, lumen_qjl_pack_signs,
    lumen_qjl_unpack_signs, lumen_sdpa_windowed, lumen_turboquant_encode,
    lumen_turboquant_encode_fused, lumen_turboquant_encode_fused_packed4,
    lumen_turboquant_qk_inline, lumen_turboquant_qk_inline_packed4,
    lumen_turboquant_rot_encode_fused, lumen_turboquant_sv_inline, FusedCall, FusedOp, KernelOp,
    MaskHandle, OpCall,
};
use crate::op::OpState;
use crate::text::signed_decimal;

verus! {

/// An allocation gives nothing where the address that came back is null, and nowhere else; any
/// other address is given as it came.
pub proof fn allocator_malloc_gives_every_address_but_null(
    size: usize,
    reply: Option<usize>,
    step: Step<BufferCall, Option<usize>>,
)
    requires
        call_ensures(allocator_malloc, (size, reply), step),
    ensures
        reply is None ==> step == Step::<BufferCall, Option<usize>>::Call(BufferCall::Malloc(size)),
        reply matches Some(address) ==> {
            &&& step matches Step::Done(found)
            &&& found is None <==> address == 0
            &&& found matches Some(given) ==> given == address
        },
{
}

/// The query of the command buffer gives nothing where the address that came back is null, and
/// nowhere else; any other address is given as it came.
pub proof fn current_command_buffer_gives_every_address_but_null(
    reply: Option<usize>,
    step: Step<BufferCall, Option<usize>>,
)
    requires
        call_ensures(current_command_buffer, (reply,), step),
    ensures
        reply is None ==> step == Step::<BufferCall, Option<usize>>::Call(
            BufferCall::CurrentCommandBuffer,
        ),
        reply matches Some(address) ==> {
            &&& step matches Step::Done(found)
            &&& found is None <==> address == 0
            &&& found matches Some(given) ==> given == address
        },
{
}

/// The query of the command queue gives nothing where the address that came back is null, and
/// nowhere else; any other address is given as it came.
pub proof fn default_command_queue_gives_every_address_but_null(
    reply: Option<usize>,
    step: Step<BufferCall, Option<usize>>,
)
    requires
        call_ensures(default_command_queue, (reply,), step),
    ensures
        reply is None ==> step == Step::<BufferCall, Option<usize>>::Call(
            BufferCall::DefaultCommandQueue,
        ),
        reply matches Some(address) ==> {
            &&& step matches Step::Done(found)
            &&& found is None <==> address == 0
            &&& found matches Some(given) ==> given == address
        },
{
}

/// A buffer is freed by its own address.
pub proof fn buffer_is_freed_by_its_address(address: usize, call: BufferCall)
    requires
        call_ensures(allocator_free, (address,), call),
    ensures
        call == BufferCall::Free(address),
{
}

/// An array adopts the buffer with the shape and the type that were given, and the number of
/// dimensions of that shape. Every handle but null is an array.
pub proof fn array_adopts_what_was_given(
    buffer: usize,
    shape: &[i32],
    dtype: u32,
    reply: Option<MlxArray>,
    here: &Location,
    step: Step<AdoptCall, Result<Array, Exception>>,
)
    requires
        call_ensures(array_from_metal_buffer, (buffer, shape, dtype, reply, here), step),
    ensures
        reply is None ==> {
            &&& step matches Step::Call(call)
            &&& call.buffer == buffer
            &&& call.shape@ == shape@
            &&& shape@.len() <= i32::MAX ==> call.ndim == shape@.len()
            &&& call.dtype == dtype
        },
        reply matches Some(handle) ==> {
            &&& step matches Step::Done(result)
            &&& handle.ctx != 0 ==> (result matches Ok(array) && array.c_array == handle)
            &&& handle.ctx == 0 ==> is_error(
                result,
                "metal::array_from_metal_buffer failed (see stderr for MLX diagnostic)"@,
                here,
            )
        },
{
}

/// A capture is refused where its path contains the null character, and nowhere else. Otherwise it
/// is started with the bytes of the path and a zero behind them, and succeeds where the status is
/// zero.
pub proof fn capture_starts_with_its_path(
    path: &str,
    reply: Option<i32>,
    here: &Location,
    step: Step<CaptureCall, Result<(), Exception>>,
)
    requires
        call_ensures(start_capture, (path, reply, here), step),
    ensures
        path@.contains('\0') ==> (step matches Step::Done(result) && is_error(
            result,
            "metal::start_capture: path contains NUL byte"@,
            here,
        )),
        !path@.contains('\0') && reply is None
            ==> (step matches Step::Call(CaptureCall::Start(bytes))
            && bytes@ == encode_utf8(path@) + seq![0u8]),
        !path@.contains('\0') ==> (reply matches Some(status) ==> {
            &&& step matches Step::Done(result)
            &&& status == 0 ==> result == Ok::<(), Exception>(())
            &&& status != 0 ==> is_error(
                result,
                "metal::start_capture failed (rc="@ + signed_decimal(status as int)
                    + "); see stderr for MLX diagnostic"@,
                here,
            )
        }),
{
    path_is_refused_for_its_null_character(path@);
    assert(encode_utf8(path@).push(0) =~= encode_utf8(path@) + seq![0u8]);
}

/// A capture is stopped by its own call, and that succeeds where the status is zero.
pub proof fn capture_stops_by_its_call(
    reply: Option<i32>,
    here: &Location,
    step: Step<CaptureCall, Result<(), Exception>>,
)
    requires
        call_ensures(stop_capture, (reply, here), step),
    ensures
        reply is None ==> step matches Step::Call(CaptureCall::Stop),
        reply matches Some(status) ==> {
            &&& step matches Step::Done(result)
            &&& status == 0 ==> result == Ok::<(), Exception>(())
            &&& status != 0 ==> is_error(
                result,
                "metal::stop_capture failed (rc="@ + signed_decimal(status as int)
                    + "); see stderr for MLX diagnostic"@,
                here,
            )
        },
{
}

/// An operation that begins counts first where the switch is on, and runs the clock before that
/// where the clock's switch is on too.
pub open spec fn begins_as_switched<T, G>(instruments: &Instruments, state: OpState<T, G>) -> bool {
    if instruments@.instrument_enabled && instruments@.op_timing_enabled {
        state is StartClock
    } else if instruments@.instrument_enabled {
        state is LockBreakdown
    } else {
        state is InstallHandler
    }
}

/// `lumen_flash_attn_bf16` begins an operation that hands each argument to its own place in the
/// call.
pub proof fn lumen_flash_attn_bf16_passes_its_arguments(
    instruments: &Instruments,
    q: &Array,
    k: &Array,
    v: &Array,
    mask: Option<&Array>,
    scale_bits: u32,
    stream: &Stream,
    op: KernelOp,
)
    requires
        call_ensures(
            lumen_flash_attn_bf16,
            (instruments, q, k, v, mask, scale_bits, stream),
            op,
        ),
    ensures
        begins_as_switched(instruments, op.state),
        op.call matches OpCall::FlashAttnBf16 {
            q: passed_q,
            k: passed_k,
            v: passed_v,
            has_mask,
            mask: mask_handle,
            scale_bits: passed_scale_bits,
            stream: passed_stream,
        }
            && passed_q == q.c_array
            && passed_k == k.c_array
            && passed_v == v.c_array
            && (mask matches Some(m)
                ==> has_mask == 1 && mask_handle == MaskHandle::Given(m.c_array))
            && (mask is None ==> has_mask == 0 && mask_handle is New)
            && passed_scale_bits == scale_bits
            && passed_stream == stream.c_stream,
{
}

/// `lumen_flash_attn_prefill_bf16` begins an operation that hands each argument to its own place in
/// the call.
pub proof fn lumen_flash_attn_prefill_bf16_passes_its_arguments(
    instruments: &Instruments,
    q: &Array,
    k: &Array,
    v: &Array,
    scale_bits: u32,
    window_size: u32,
    kv_offset: u32,
    stream: &Stream,
    op: KernelOp,
)
    requires
        call_ensures(
            lumen_flash_attn_prefill_bf16,
            (instruments, q, k, v, scale_bits, window_size, kv_offset, stream),
            op,
        ),
    ensures
        begins_as_switched(instruments, op.state),
        op.call matches OpCall::FlashAttnPrefillBf16 {
            q: passed_q,
            k: passed_k,
            v: passed_v,
            scale_bits: passed_scale_bits,
            window_size: passed_window_size,
            kv_offset: passed_kv_offset,
            stream: passed_stream,
        }
            && passed_q == q.c_array
            && passed_k == k.c_array
            && passed_v == v.c_array
            && passed_scale_bits == scale_bits
            && passed_window_size == window_size
            && passed_kv_offset == kv_offset
            && passed_stream == stream.c_stream,
{
}

/// `lumen_sdpa_windowed` begins an operation that hands each argument to its own place in the
/// call.
pub proof fn lumen_sdpa_windowed_passes_its_arguments(
    instruments: &Instruments,
    q: &Array,
    k: &Array,
    v: &Array,
    scale_bits: u32,
    window_size: i32,
    stream: &Stream,
    op: KernelOp,
)
    requires
        call_ensures(
            lumen_sdpa_windowed,
            (instruments, q, k, v, scale_bits, window_size, stream),
            op,
        ),
    ensures
        begins_as_switched(instruments, op.state),
        op.call matches OpCall::SdpaWindowed {
            q: passed_q,
            k: passed_k,
            v: passed_v,
            scale_bits: passed_scale_bits,
            window: passed_window_size,
            stream: passed_stream,
        }
            && passed_q == q.c_array
            && passed_k == k.c_array
            && passed_v == v.c_array
            && passed_scale_bits == scale_bits
            && passed_window_size == window_size
            && passed_stream == stream.c_stream,
{
}

/// `lumen_turboquant_encode` begins an operation that hands each argument to its own place in the
/// call.
pub proof fn lumen_turboquant_encode_passes_its_arguments(
    instruments: &Instruments,
    x_norm: &Array,
    boundaries: &Array,
    stream: &Stream,
    op: KernelOp,
)
    requires
        call_ensures(
            lumen_turboquant_encode,
            (instruments, x_norm, boundaries, stream),
            op,
        ),
    ensures
        begins_as_switched(instruments, op.state),
        op.call matches OpCall::TurboquantEncode {
            x_norm: passed_x_norm,
            boundaries: passed_boundaries,
            stream: passed_stream,
        }
            && passed_x_norm == x_norm.c_array
            && passed_boundaries == boundaries.c_array
            && passed_stream == stream.c_stream,
{
}

/// `lumen_qjl_pack_signs` begins an operation that hands each argument to its own place in the
/// call.
pub proof fn lumen_qjl_pack_signs_passes_its_arguments(
    instruments: &Instruments,
    values: &Array,
    m: i32,
    stream: &Stream,
    op: KernelOp,
)
    requires
        call_ensures(
            lumen_qjl_pack_signs,
            (instruments, values, m, stream),
            op,
        ),
    ensures
        begins_as_switched(instruments, op.state),
        op.call matches OpCall::QjlPackSigns {
            values: passed_values,
            m: passed_m,
            stream: passed_stream,
        }
            && passed_values == values.c_array
            && passed_m == m
            && passed_stream == stream.c_stream,
{
}

/// `lumen_qjl_unpack_signs` begins an operation that hands each argument to its own place in the
/// call.
pub proof fn lumen_qjl_unpack_signs_passes_its_arguments(
    instruments: &Instruments,
    packed: &Array,
    m: i32,
    stream: &Stream,
    op: KernelOp,
)
    requires
        call_ensures(
            lumen_qjl_unpack_signs,
            (instruments, packed, m, stream),
            op,
        ),
    ensures
        begins_as_switched(instruments, op.state),
        op.call matches OpCall::QjlUnpackSigns {
            packed: passed_packed,
            m: passed_m,
            stream: passed_stream,
        }
            && passed_packed == packed.c_array
            && passed_m == m
            && passed_stream == stream.c_stream,
{
}

/// `lumen_turboquant_qk_inline` begins an operation that hands each argument to its own place in
/// the call.
pub proof fn lumen_turboquant_qk_inline_passes_its_arguments(
    instruments: &Instruments,
    q: &Array,
    k_codes: &Array,
    k_sigma: &Array,
    centroids: &Array,
    stream: &Stream,
    op: KernelOp,
)
    requires
        call_ensures(
            lumen_turboquant_qk_inline,
            (instruments, q, k_codes, k_sigma, centroids, stream),
            op,
        ),
    ensures
        begins_as_switched(instruments, op.state),
        op.call matches OpCall::TurboquantQkInline {
            q: passed_q,
            k_codes: passed_k_codes,
            k_sigma: passed_k_sigma,
            centroids: passed_centroids,
            stream: passed_stream,
        }
            && passed_q == q.c_array
            && passed_k_codes == k_codes.c_array
            && passed_k_sigma == k_sigma.c_array
            && passed_centroids == centroids.c_array
            && passed_stream == stream.c_stream,
{
}

/// `lumen_turboquant_qk_inline_packed4` begins an operation that hands each argument to its own
/// place in the call.
pub proof fn lumen_turboquant_qk_inline_packed4_passes_its_arguments(
    instruments: &Instruments,
    q: &Array,
    k_codes_pkd: &Array,
    k_sigma: &Array,
    centroids: &Array,
    stream: &Stream,
    op: KernelOp,
)
    requires
        call_ensures(
            lumen_turboquant_qk_inline_packed4,
            (instruments, q, k_codes_pkd, k_sigma, centroids, stream),
            op,
        ),
    ensures
        begins_as_switched(instruments, op.state),
        op.call matches OpCall::TurboquantQkInlinePacked4 {
            q: passed_q,
            k_codes_pkd: passed_k_codes_pkd,
            k_sigma: passed_k_sigma,
            centroids: passed_centroids,
            stream: passed_stream,
        }
            && passed_q == q.c_array
            && passed_k_codes_pkd == k_codes_pkd.c_array
            && passed_k_sigma == k_sigma.c_array
            && passed_centroids == centroids.c_array
            && passed_stream == stream.c_stream,
{
}

/// `lumen_turboquant_sv_inline` begins an operation that hands each argument to its own place in
/// the call.
pub proof fn lumen_turboquant_sv_inline_passes_its_arguments(
    instruments: &Instruments,
    s: &Array,
    v_codes: &Array,
    v_sigma: &Array,
    centroids: &Array,
    stream: &Stream,
    op: KernelOp,
)
    requires
        call_ensures(
            lumen_turboquant_sv_inline,
            (instruments, s, v_codes, v_sigma, centroids, stream),
            op,
        ),
    ensures
        begins_as_switched(instruments, op.state),
        op.call matches OpCall::TurboquantSvInline {
            s: passed_s,
            v_codes: passed_v_codes,
            v_sigma: passed_v_sigma,
            centroids: passed_centroids,
            stream: passed_stream,
        }
            && passed_s == s.c_array
            && passed_v_codes == v_codes.c_array
            && passed_v_sigma == v_sigma.c_array
            && passed_centroids == centroids.c_array
            && passed_stream == stream.c_stream,
{
}

/// `lumen_turboquant_encode_fused` begins an operation that hands each argument to its own place in
/// the call.
pub proof fn lumen_turboquant_encode_fused_passes_its_arguments(
    instruments: &Instruments,
    x_rot: &Array,
    boundaries: &Array,
    stream: &Stream,
    op: FusedOp,
)
    requires
        call_ensures(
            lumen_turboquant_encode_fused,
            (instruments, x_rot, boundaries, stream),
            op,
        ),
    ensures
        begins_as_switched(instruments, op.state),
        op.call matches FusedCall::TurboquantEncodeFused {
            x_rot: passed_x_rot,
            boundaries: passed_boundaries,
            stream: passed_stream,
        }
            && passed_x_rot == x_rot.c_array
            && passed_boundaries == boundaries.c_array
            && passed_stream == stream.c_stream,
{
}

/// `lumen_turboquant_rot_encode_fused` begins an operation that hands each argument to its own
/// place in the call.
pub proof fn lumen_turboquant_rot_encode_fused_passes_its_arguments(
    instruments: &Instruments,
    x_bf16: &Array,
    r_f32: &Array,
    boundaries: &Array,
    stream: &Stream,
    op: FusedOp,
)
    requires
        call_ensures(
            lumen_turboquant_rot_encode_fused,
            (instruments, x_bf16, r_f32, boundaries, stream),
            op,
        ),
    ensures
        begins_as_switched(instruments, op.state),
        op.call matches FusedCall::TurboquantRotEncodeFused {
            x_bf16: passed_x_bf16,
            r_f32: passed_r_f32,
            boundaries: passed_boundaries,
            stream: passed_stream,
        }
            && passed_x_bf16 == x_bf16.c_array
            && passed_r_f32 == r_f32.c_array
            && passed_boundaries == boundaries.c_array
            && passed_stream == stream.c_stream,
{
}

/// `lumen_turboquant_encode_fused_packed4` begins an operation that hands each argument to its own
/// place in the call.
pub proof fn lumen_turboquant_encode_fused_packed4_passes_its_arguments(
    instruments: &Instruments,
    x_rot: &Array,
    boundaries: &Array,
    stream: &Stream,
    op: FusedOp,
)
    requires
        call_ensures(
            lumen_turboquant_encode_fused_packed4,
            (instruments, x_rot, boundaries, stream),
            op,
        ),
    ensures
        begins_as_switched(instruments, op.state),
        op.call matches FusedCall::TurboquantEncodeFusedPacked4 {
            x_rot: passed_x_rot,
            boundaries: passed_boundaries,
            stream: passed_stream,
        }
            && passed_x_rot == x_rot.c_array
            && passed_boundaries == boundaries.c_array
            && passed_stream == stream.c_stream,
{
}

} // verus!

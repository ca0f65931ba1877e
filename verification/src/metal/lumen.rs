//! The kernels that run as operations on arrays.
//!
//! A function here begins the operation that runs a kernel: it says which call is to be made, with
//! which handles and numbers, and from where the operation goes on. How it goes on and how it ends
//! is a matter of `crate::op` and of the guard. A scale is given by the bits of its 32-bit float.

use vstd::prelude::*;

use crate::error::{Exception, Location, LocationView};
use crate::guard::{Guard, Guarded, MaybeUninitArray};
use crate::handles::{Array, Handle, MlxArray, MlxStream, Stream};
use crate::instrument::Instruments;
use crate::op::{begins, Op};

verus! {

/// A handle for an argument that may be missing.
#[derive(Clone, Copy, Debug, PartialEq, Eq, Structural)]
pub enum MaskHandle {
    /// The handle of the argument.
    Given(MlxArray),
    /// A handle that `mlx_array_new` makes for the call, and that nobody frees.
    New,
}

/// A call with one result.
#[derive(Clone, Copy, Debug, PartialEq, Eq, Structural)]
pub enum OpCall {
    /// `mlx_lumen_flash_attn_bf16`.
    FlashAttnBf16 {
        q: MlxArray,
        k: MlxArray,
        v: MlxArray,
        has_mask: i32,
        mask: MaskHandle,
        scale_bits: u32,
        stream: MlxStream,
    },
    /// `mlx_lumen_flash_attn_prefill_bf16`.
    FlashAttnPrefillBf16 {
        q: MlxArray,
        k: MlxArray,
        v: MlxArray,
        scale_bits: u32,
        window_size: u32,
        kv_offset: u32,
        stream: MlxStream,
    },
    /// `mlx_lumen_sdpa_windowed`.
    SdpaWindowed {
        q: MlxArray,
        k: MlxArray,
        v: MlxArray,
        scale_bits: u32,
        window: i32,
        stream: MlxStream,
    },
    /// `mlx_lumen_turboquant_encode`.
    TurboquantEncode {
        x_norm: MlxArray,
        boundaries: MlxArray,
        stream: MlxStream,
    },
    /// `mlx_lumen_qjl_pack_signs`.
    QjlPackSigns {
        values: MlxArray,
        m: i32,
        stream: MlxStream,
    },
    /// `mlx_lumen_qjl_unpack_signs`.
    QjlUnpackSigns {
        packed: MlxArray,
        m: i32,
        stream: MlxStream,
    },
    /// `mlx_lumen_turboquant_qk_inline`.
    TurboquantQkInline {
        q: MlxArray,
        k_codes: MlxArray,
        k_sigma: MlxArray,
        centroids: MlxArray,
        stream: MlxStream,
    },
    /// `mlx_lumen_turboquant_qk_inline_packed4`.
    TurboquantQkInlinePacked4 {
        q: MlxArray,
        k_codes_pkd: MlxArray,
        k_sigma: MlxArray,
        centroids: MlxArray,
        stream: MlxStream,
    },
    /// `mlx_lumen_turboquant_sv_inline`.
    TurboquantSvInline {
        s: MlxArray,
        v_codes: MlxArray,
        v_sigma: MlxArray,
        centroids: MlxArray,
        stream: MlxStream,
    },
}

/// An operation that runs a kernel with one result.
pub type KernelOp = Op<OpCall, Array, <Array as Guarded>::Guard>;

/// Flash attention, for queries of any length. `q` has the shape `[B, H, Sq, D]`, `k` and `v` have
/// the shape `[B, H_kv, Skv, D]`, and the mask, where there is one, has the shape `[Sq, Skv]` and
/// is added to the logits.
pub fn lumen_flash_attn_bf16(
    instruments: &Instruments,
    q: &Array,
    k: &Array,
    v: &Array,
    mask: Option<&Array>,
    scale_bits: u32,
    stream: &Stream,
) -> (op: KernelOp)
    ensures
        begins(instruments@.plan(), op.state),
        op.call == (OpCall::FlashAttnBf16 {
            q: q.c_array,
            k: k.c_array,
            v: v.c_array,
            has_mask: if mask is Some {
                1
            } else {
                0
            },
            mask: match mask {
                Some(m) => MaskHandle::Given(m.c_array),
                None => MaskHandle::New,
            },
            scale_bits,
            stream: stream.c_stream,
        }),
{
    let (has_mask, mask_handle): (i32, MaskHandle) = match mask {
        Some(m) => (1, MaskHandle::Given(m.as_ptr())),
        None => (0, MaskHandle::New),
    };
    Op::begin(
        instruments,
        OpCall::FlashAttnBf16 {
            q: q.as_ptr(),
            k: k.as_ptr(),
            v: v.as_ptr(),
            has_mask,
            mask: mask_handle,
            scale_bits,
            stream: stream.as_ptr(),
        },
    )
}

/// Flash attention over a prompt, causal, with a sliding window unless `window_size` is zero. The
/// kernel works out the mask from `kv_offset` and the position.
pub fn lumen_flash_attn_prefill_bf16(
    instruments: &Instruments,
    q: &Array,
    k: &Array,
    v: &Array,
    scale_bits: u32,
    window_size: u32,
    kv_offset: u32,
    stream: &Stream,
) -> (op: KernelOp)
    ensures
        begins(instruments@.plan(), op.state),
        op.call == (OpCall::FlashAttnPrefillBf16 {
            q: q.c_array,
            k: k.c_array,
            v: v.c_array,
            scale_bits,
            window_size,
            kv_offset,
            stream: stream.c_stream,
        }),
{
    Op::begin(
        instruments,
        OpCall::FlashAttnPrefillBf16 {
            q: q.as_ptr(),
            k: k.as_ptr(),
            v: v.as_ptr(),
            scale_bits,
            window_size,
            kv_offset,
            stream: stream.as_ptr(),
        },
    )
}

/// Causal attention within a window of `window_size` positions.
pub fn lumen_sdpa_windowed(
    instruments: &Instruments,
    q: &Array,
    k: &Array,
    v: &Array,
    scale_bits: u32,
    window_size: i32,
    stream: &Stream,
) -> (op: KernelOp)
    ensures
        begins(instruments@.plan(), op.state),
        op.call == (OpCall::SdpaWindowed {
            q: q.c_array,
            k: k.c_array,
            v: v.c_array,
            scale_bits,
            window: window_size,
            stream: stream.c_stream,
        }),
{
    Op::begin(
        instruments,
        OpCall::SdpaWindowed {
            q: q.as_ptr(),
            k: k.as_ptr(),
            v: v.as_ptr(),
            scale_bits,
            window: window_size,
            stream: stream.as_ptr(),
        },
    )
}

/// Encodes normalised values as the numbers of their nearest Lloyd-Max centroids.
pub fn lumen_turboquant_encode(
    instruments: &Instruments,
    x_norm: &Array,
    boundaries: &Array,
    stream: &Stream,
) -> (op: KernelOp)
    ensures
        begins(instruments@.plan(), op.state),
        op.call == (OpCall::TurboquantEncode {
            x_norm: x_norm.c_array,
            boundaries: boundaries.c_array,
            stream: stream.c_stream,
        }),
{
    Op::begin(
        instruments,
        OpCall::TurboquantEncode {
            x_norm: x_norm.as_ptr(),
            boundaries: boundaries.as_ptr(),
            stream: stream.as_ptr(),
        },
    )
}

/// Packs the signs of the `m` values along the last axis into 32-bit words.
pub fn lumen_qjl_pack_signs(
    instruments: &Instruments,
    values: &Array,
    m: i32,
    stream: &Stream,
) -> (op: KernelOp)
    ensures
        begins(instruments@.plan(), op.state),
        op.call == (OpCall::QjlPackSigns {
            values: values.c_array,
            m,
            stream: stream.c_stream,
        }),
{
    Op::begin(
        instruments,
        OpCall::QjlPackSigns {
            values: values.as_ptr(),
            m,
            stream: stream.as_ptr(),
        },
    )
}

/// Unpacks `m` signs along the last axis as plus or minus one.
pub fn lumen_qjl_unpack_signs(
    instruments: &Instruments,
    packed: &Array,
    m: i32,
    stream: &Stream,
) -> (op: KernelOp)
    ensures
        begins(instruments@.plan(), op.state),
        op.call == (OpCall::QjlUnpackSigns {
            packed: packed.c_array,
            m,
            stream: stream.c_stream,
        }),
{
    Op::begin(
        instruments,
        OpCall::QjlUnpackSigns {
            packed: packed.as_ptr(),
            m,
            stream: stream.as_ptr(),
        },
    )
}

/// Attention scores of queries against keys that stay encoded.
pub fn lumen_turboquant_qk_inline(
    instruments: &Instruments,
    q: &Array,
    k_codes: &Array,
    k_sigma: &Array,
    centroids: &Array,
    stream: &Stream,
) -> (op: KernelOp)
    ensures
        begins(instruments@.plan(), op.state),
        op.call == (OpCall::TurboquantQkInline {
            q: q.c_array,
            k_codes: k_codes.c_array,
            k_sigma: k_sigma.c_array,
            centroids: centroids.c_array,
            stream: stream.c_stream,
        }),
{
    Op::begin(
        instruments,
        OpCall::TurboquantQkInline {
            q: q.as_ptr(),
            k_codes: k_codes.as_ptr(),
            k_sigma: k_sigma.as_ptr(),
            centroids: centroids.as_ptr(),
            stream: stream.as_ptr(),
        },
    )
}

/// Attention scores of queries against keys that stay encoded, eight codes to a word.
pub fn lumen_turboquant_qk_inline_packed4(
    instruments: &Instruments,
    q: &Array,
    k_codes_pkd: &Array,
    k_sigma: &Array,
    centroids: &Array,
    stream: &Stream,
) -> (op: KernelOp)
    ensures
        begins(instruments@.plan(), op.state),
        op.call == (OpCall::TurboquantQkInlinePacked4 {
            q: q.c_array,
            k_codes_pkd: k_codes_pkd.c_array,
            k_sigma: k_sigma.c_array,
            centroids: centroids.c_array,
            stream: stream.c_stream,
        }),
{
    Op::begin(
        instruments,
        OpCall::TurboquantQkInlinePacked4 {
            q: q.as_ptr(),
            k_codes_pkd: k_codes_pkd.as_ptr(),
            k_sigma: k_sigma.as_ptr(),
            centroids: centroids.as_ptr(),
            stream: stream.as_ptr(),
        },
    )
}

/// Attention output of scores against values that stay encoded.
pub fn lumen_turboquant_sv_inline(
    instruments: &Instruments,
    s: &Array,
    v_codes: &Array,
    v_sigma: &Array,
    centroids: &Array,
    stream: &Stream,
) -> (op: KernelOp)
    ensures
        begins(instruments@.plan(), op.state),
        op.call == (OpCall::TurboquantSvInline {
            s: s.c_array,
            v_codes: v_codes.c_array,
            v_sigma: v_sigma.c_array,
            centroids: centroids.c_array,
            stream: stream.c_stream,
        }),
{
    Op::begin(
        instruments,
        OpCall::TurboquantSvInline {
            s: s.as_ptr(),
            v_codes: v_codes.as_ptr(),
            v_sigma: v_sigma.as_ptr(),
            centroids: centroids.as_ptr(),
            stream: stream.as_ptr(),
        },
    )
}

/// A call with two results: the codes, and the standard deviations.
#[derive(Clone, Copy, Debug, PartialEq, Eq, Structural)]
pub enum FusedCall {
    /// `mlx_lumen_turboquant_encode_fused`.
    TurboquantEncodeFused {
        x_rot: MlxArray,
        boundaries: MlxArray,
        stream: MlxStream,
    },
    /// `mlx_lumen_turboquant_rot_encode_fused`.
    TurboquantRotEncodeFused {
        x_bf16: MlxArray,
        r_f32: MlxArray,
        boundaries: MlxArray,
        stream: MlxStream,
    },
    /// `mlx_lumen_turboquant_encode_fused_packed4`.
    TurboquantEncodeFusedPacked4 {
        x_rot: MlxArray,
        boundaries: MlxArray,
        stream: MlxStream,
    },
}

/// Holds the two results of a fused kernel. Where they are freed, the standard deviations, which
/// were made last, come first.
pub struct FusedGuards {
    pub codes: MaybeUninitArray,
    pub sigma: MaybeUninitArray,
}

impl FusedGuards {
    /// Guards around two new handles.
    pub fn new(codes: MlxArray, sigma: MlxArray) -> (guards: Self)
        ensures
            guards == (FusedGuards {
                codes: MaybeUninitArray { ptr: codes, init_success: false },
                sigma: MaybeUninitArray { ptr: sigma, init_success: false },
            }),
    {
        FusedGuards { codes: MaybeUninitArray::new(codes), sigma: MaybeUninitArray::new(sigma) }
    }
}

impl Guard<(Array, Array)> for FusedGuards {
    type Raw = (MlxArray, MlxArray);

    open spec fn raw(&self) -> (MlxArray, MlxArray) {
        (self.codes.ptr, self.sigma.ptr)
    }

    open spec fn ready(&self) -> bool {
        self.codes.init_success && self.sigma.init_success
    }

    open spec fn fresh(&self) -> bool {
        !self.codes.init_success && !self.sigma.init_success
    }

    open spec fn handles(raw: (MlxArray, MlxArray)) -> Seq<Handle> {
        seq![Handle::Array(raw.1), Handle::Array(raw.0)]
    }

    open spec fn frees(&self) -> Seq<Handle> {
        self.sigma.frees() + self.codes.frees()
    }

    open spec fn owned(guarded: (Array, Array)) -> Seq<Handle> {
        seq![Handle::Array(guarded.1.c_array), Handle::Array(guarded.0.c_array)]
    }

    open spec fn yields(
        raw: (MlxArray, MlxArray),
        here: LocationView,
        result: Result<(Array, Array), Exception>,
    ) -> bool {
        &&& result matches Ok(guarded)
        &&& guarded.0.c_array == raw.0
        &&& guarded.1.c_array == raw.1
    }

    proof fn fresh_frees_all(&self) {
    }

    proof fn ready_frees_nothing(&self) {
    }

    proof fn hands_on_all(raw: (MlxArray, MlxArray), here: LocationView, guarded: (Array, Array)) {
    }

    fn fill(&mut self, raw: (MlxArray, MlxArray))
        ensures
            final(self).codes == (MaybeUninitArray { ptr: raw.0, ..old(self).codes }),
            final(self).sigma == (MaybeUninitArray { ptr: raw.1, ..old(self).sigma }),
    {
        self.codes.fill(raw.0);
        self.sigma.fill(raw.1);
    }

    fn set_init_success(&mut self, success: bool)
        ensures
            final(self).codes == (MaybeUninitArray { init_success: success, ..old(self).codes }),
            final(self).sigma == (MaybeUninitArray { init_success: success, ..old(self).sigma }),
    {
        self.codes.set_init_success(success);
        self.sigma.set_init_success(success);
    }

    fn on_drop(&self) -> (freed: Vec<Handle>) {
        let mut freed: Vec<Handle> = self.sigma.on_drop();
        freed.append(&mut self.codes.on_drop());
        freed
    }

    fn try_into_guarded(self, here: &Location) -> (result: Result<(Array, Array), Exception>) {
        Ok((
            self.codes.try_into_guarded(here)?,
            self.sigma.try_into_guarded(here)?,
        ))
    }
}

/// An operation that runs a kernel with two results: the codes, and the standard deviations.
pub type FusedOp = Op<FusedCall, (Array, Array), FusedGuards>;

/// Normalises rotated values by their standard deviation and encodes them, in one kernel. Gives
/// the codes and the standard deviations.
pub fn lumen_turboquant_encode_fused(
    instruments: &Instruments,
    x_rot: &Array,
    boundaries: &Array,
    stream: &Stream,
) -> (op: FusedOp)
    ensures
        begins(instruments@.plan(), op.state),
        op.call == (FusedCall::TurboquantEncodeFused {
            x_rot: x_rot.c_array,
            boundaries: boundaries.c_array,
            stream: stream.c_stream,
        }),
{
    Op::begin(
        instruments,
        FusedCall::TurboquantEncodeFused {
            x_rot: x_rot.as_ptr(),
            boundaries: boundaries.as_ptr(),
            stream: stream.as_ptr(),
        },
    )
}

/// Rotates values, normalises them by their standard deviation and encodes them, in one kernel.
/// Gives the codes and the standard deviations.
pub fn lumen_turboquant_rot_encode_fused(
    instruments: &Instruments,
    x_bf16: &Array,
    r_f32: &Array,
    boundaries: &Array,
    stream: &Stream,
) -> (op: FusedOp)
    ensures
        begins(instruments@.plan(), op.state),
        op.call == (FusedCall::TurboquantRotEncodeFused {
            x_bf16: x_bf16.c_array,
            r_f32: r_f32.c_array,
            boundaries: boundaries.c_array,
            stream: stream.c_stream,
        }),
{
    Op::begin(
        instruments,
        FusedCall::TurboquantRotEncodeFused {
            x_bf16: x_bf16.as_ptr(),
            r_f32: r_f32.as_ptr(),
            boundaries: boundaries.as_ptr(),
            stream: stream.as_ptr(),
        },
    )
}

/// As `lumen_turboquant_encode_fused`, with eight codes of four bits to a word.
pub fn lumen_turboquant_encode_fused_packed4(
    instruments: &Instruments,
    x_rot: &Array,
    boundaries: &Array,
    stream: &Stream,
) -> (op: FusedOp)
    ensures
        begins(instruments@.plan(), op.state),
        op.call == (FusedCall::TurboquantEncodeFusedPacked4 {
            x_rot: x_rot.c_array,
            boundaries: boundaries.c_array,
            stream: stream.c_stream,
        }),
{
    Op::begin(
        instruments,
        FusedCall::TurboquantEncodeFusedPacked4 {
            x_rot: x_rot.as_ptr(),
            boundaries: boundaries.as_ptr(),
            stream: stream.as_ptr(),
        },
    )
}

} // verus!

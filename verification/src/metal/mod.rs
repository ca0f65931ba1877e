//! Metal capture, introspection, buffers and kernels.

pub mod buffers;
pub mod capture;
pub mod lumen;
pub mod stats;

pub use buffers::{
    allocator_free, allocator_malloc, array_from_metal_buffer, current_command_buffer,
    default_command_queue,
};
pub use capture::{start_capture, stop_capture};
pub use lumen::{
    lumen_flash_attn_bf16, lumen_flash_attn_prefill_bf16, lumen_qjl_pack_signs,
    lumen_qjl_unpack_signs, lumen_sdpa_windowed, lumen_turboquant_encode,
    lumen_turboquant_encode_fused, lumen_turboquant_encode_fused_packed4,
    lumen_turboquant_qk_inline, lumen_turboquant_qk_inline_packed4,
    lumen_turboquant_rot_encode_fused, lumen_turboquant_sv_inline,
};
pub use stats::{
    astype_pair_stats, cmd_buffer_stats, eval_gpu_stats, kernel_cache_stats, prim_histogram,
    prim_histogram_dynamic, reset_astype_pair_stats, reset_cmd_buffer_stats,
    reset_eval_gpu_stats, reset_kernel_cache_stats, reset_prim_histogram,
    reset_prim_histogram_dynamic, reset_scheduler_stats, scheduler_stats,
};

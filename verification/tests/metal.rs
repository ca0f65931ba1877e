use mlx_metal::call::{Reply, Step};
use mlx_metal::error::{Exception, Location};
use mlx_metal::handles::{Array, MlxArray, MlxStream, Stream};
use mlx_metal::instrument::Instruments;
use mlx_metal::metal;
use mlx_metal::metal::buffers::BufferCall;
use mlx_metal::metal::capture::CaptureCall;
use mlx_metal::metal::lumen::{FusedCall, MaskHandle, OpCall};
use mlx_metal::metal::stats::{
    histogram_text, Bin, Counter, HistogramDump, ResetCall, HISTOGRAM_BUFFER,
};

type Reset = fn(Option<i32>, &Location) -> Step<ResetCall, Result<(), Exception>>;

fn here() -> Location {
    Location { file: "metal.rs".to_string(), line: 11, column: 2 }
}

fn call<C, T>(step: Step<C, T>) -> C {
    match step {
        Step::Call(call) => call,
        Step::Done(_) => panic!("no call"),
    }
}

fn done<C, T>(step: Step<C, T>) -> T {
    match step {
        Step::Call(_) => panic!("not done"),
        Step::Done(result) => result,
    }
}

fn what<T>(result: Result<T, Exception>) -> String {
    match result {
        Ok(_) => panic!("no error"),
        Err(e) => {
            assert_eq!(e.location.line, 11);
            e.what().to_string()
        }
    }
}

fn ok(value: u64) -> Reply<u64> {
    Reply { status: 0, value }
}

fn failed(status: i32) -> Reply<u64> {
    Reply { status, value: 0 }
}

fn array(ctx: usize) -> Array {
    Array::from_ptr(MlxArray { ctx })
}

fn handle(ctx: usize) -> MlxArray {
    MlxArray { ctx }
}

fn off() -> Instruments {
    Instruments::new()
}

fn stream() -> Stream {
    Stream { c_stream: MlxStream { ctx: 77 }, borrowed: false }
}

#[test]
fn capture_starts_with_a_c_string() {
    match call(metal::start_capture("/tmp/é.gputrace", None, &here())) {
        CaptureCall::Start(bytes) => assert_eq!(bytes, b"/tmp/\xc3\xa9.gputrace\0".to_vec()),
        CaptureCall::Stop => panic!("wrong call"),
    }
    assert!(done(metal::start_capture("a", Some(0), &here())).is_ok());
    assert_eq!(
        what(done(metal::start_capture("a", Some(3), &here()))),
        "metal::start_capture failed (rc=3); see stderr for MLX diagnostic"
    );
}

#[test]
fn capture_refuses_a_null_character() {
    for reply in [None, Some(0), Some(4)] {
        assert_eq!(
            what(done(metal::start_capture("a\0b", reply, &here()))),
            "metal::start_capture: path contains NUL byte"
        );
    }
    assert!(matches!(
        metal::start_capture("", None, &here()),
        Step::Call(CaptureCall::Start(_))
    ));
}

#[test]
fn capture_stops() {
    assert!(matches!(metal::stop_capture(None, &here()), Step::Call(CaptureCall::Stop)));
    assert!(done(metal::stop_capture(Some(0), &here())).is_ok());
    assert_eq!(
        what(done(metal::stop_capture(Some(-1), &here()))),
        "metal::stop_capture failed (rc=-1); see stderr for MLX diagnostic"
    );
}

#[test]
fn kernel_cache_is_read_in_turn() {
    let f = metal::kernel_cache_stats;
    assert_eq!(call(f(&[], &here())), Counter::KernelCacheHits);
    assert_eq!(call(f(&[ok(5)], &here())), Counter::KernelCacheMisses);
    assert_eq!(done(f(&[ok(5), ok(6)], &here())).unwrap(), (5, 6));
    assert_eq!(what(done(f(&[failed(9)], &here()))), "metal::kernel_cache_hits failed (rc=9)");
    assert_eq!(
        what(done(f(&[failed(9), ok(1)], &here()))),
        "metal::kernel_cache_hits failed (rc=9)"
    );
    assert_eq!(
        what(done(f(&[ok(1), failed(8)], &here()))),
        "metal::kernel_cache_misses failed (rc=8)"
    );
}

#[test]
fn command_buffers_are_read_in_turn() {
    let f = metal::cmd_buffer_stats;
    assert_eq!(call(f(&[], &here())), Counter::CmdBufferCommits);
    assert_eq!(call(f(&[ok(5)], &here())), Counter::CmdBufferOpsTotal);
    assert_eq!(done(f(&[ok(1), ok(u64::MAX)], &here())).unwrap(), (1, u64::MAX));
    assert_eq!(what(done(f(&[failed(1)], &here()))), "metal::cmd_buffer_commits failed (rc=1)");
    assert_eq!(
        what(done(f(&[ok(1), failed(2)], &here()))),
        "metal::cmd_buffer_ops_total failed (rc=2)"
    );
}

#[test]
fn evaluations_are_read_in_turn() {
    let f = metal::eval_gpu_stats;
    assert_eq!(call(f(&[], &here())), Counter::EvalGpuCalls);
    assert_eq!(call(f(&[ok(5)], &here())), Counter::EvalGpuNs);
    assert_eq!(done(f(&[ok(2), ok(3)], &here())).unwrap(), (2, 3));
    assert_eq!(what(done(f(&[failed(1)], &here()))), "metal::eval_gpu_calls failed (rc=1)");
    assert_eq!(what(done(f(&[ok(1), failed(2)], &here()))), "metal::eval_gpu_ns failed (rc=2)");
}

#[test]
fn scheduler_is_read_in_turn() {
    let f = metal::scheduler_stats;
    let three = [ok(1), ok(2), ok(3)];
    assert_eq!(call(f(&[], None, &here())), Counter::SchedulerNewTaskCount);
    assert_eq!(call(f(&three[..1], None, &here())), Counter::SchedulerCompletionCount);
    assert_eq!(call(f(&three[..2], None, &here())), Counter::SchedulerLockWaitNs);
    assert_eq!(call(f(&three, None, &here())), Counter::SchedulerMaxActiveTasks);
    let max = Some(Reply { status: 0, value: -4 });
    assert_eq!(done(f(&three, max, &here())).unwrap(), (1, 2, 3, -4));
    assert_eq!(
        what(done(f(&[failed(1)], None, &here()))),
        "metal::scheduler_new_task_count failed (rc=1)"
    );
    assert_eq!(
        what(done(f(&[ok(1), failed(2)], None, &here()))),
        "metal::scheduler_completion_count failed (rc=2)"
    );
    assert_eq!(
        what(done(f(&[ok(1), ok(1), failed(3)], None, &here()))),
        "metal::scheduler_lock_wait_ns failed (rc=3)"
    );
    assert_eq!(
        what(done(f(&three, Some(Reply { status: 4, value: 1 }), &here()))),
        "metal::scheduler_max_active_tasks failed (rc=4)"
    );
}

#[test]
fn histogram_reads_all_bins() {
    let bins = [
        Bin::PrimRmsNorm,
        Bin::PrimQmm,
        Bin::PrimReshape,
        Bin::PrimBroadcast,
        Bin::PrimMultiply,
        Bin::PrimTranspose,
        Bin::PrimCompiled,
        Bin::PrimOther,
    ];
    let mut replies = Vec::new();
    for (i, bin) in bins.iter().enumerate() {
        assert_eq!(call(metal::prim_histogram(&replies, &here())), *bin);
        replies.push(if i == 2 { failed(4) } else { ok(i as u64) });
    }
    assert_eq!(
        what(done(metal::prim_histogram(&replies, &here()))),
        "metal::prim_histogram failed (rc bitmap=4)"
    );
    replies[5].status = 3;
    assert_eq!(
        what(done(metal::prim_histogram(&replies, &here()))),
        "metal::prim_histogram failed (rc bitmap=7)"
    );
    replies[5].status = 0;
    replies[2] = ok(2);
    assert_eq!(
        done(metal::prim_histogram(&replies, &here())).unwrap(),
        (0, 1, 2, 3, 4, 5, 6, 7)
    );
}

#[test]
fn conversions_read_all_bins() {
    let bins = [
        Bin::AstypeBf16ToFloat32,
        Bin::AstypeFloat32ToBf16,
        Bin::AstypeNoop,
        Bin::AstypeOtherPair,
    ];
    let mut replies = Vec::new();
    for bin in bins {
        assert_eq!(call(metal::astype_pair_stats(&replies, &here())), bin);
        replies.push(ok(10 + replies.len() as u64));
    }
    assert_eq!(done(metal::astype_pair_stats(&replies, &here())).unwrap(), (10, 11, 12, 13));
    replies[3].status = -1;
    assert_eq!(
        what(done(metal::astype_pair_stats(&replies, &here()))),
        "metal::astype_pair_stats failed (rc bitmap=-1)"
    );
}

#[test]
fn resets_name_themselves() {
    let resets: [(Reset, ResetCall, &str); 7] = [
        (metal::reset_kernel_cache_stats, ResetCall::KernelCacheStats, "reset_kernel_cache_stats"),
        (metal::reset_cmd_buffer_stats, ResetCall::CmdBufferStats, "reset_cmd_buffer_stats"),
        (metal::reset_scheduler_stats, ResetCall::SchedulerStats, "reset_scheduler_stats"),
        (metal::reset_eval_gpu_stats, ResetCall::EvalGpuStats, "reset_eval_gpu_stats"),
        (metal::reset_prim_histogram, ResetCall::PrimHist, "reset_prim_histogram"),
        (
            metal::reset_prim_histogram_dynamic,
            ResetCall::PrimHistDynamic,
            "reset_prim_histogram_dynamic",
        ),
        (metal::reset_astype_pair_stats, ResetCall::AstypePair, "reset_astype_pair_stats"),
    ];
    for (reset, expected, name) in resets {
        assert_eq!(call(reset(None, &here())), expected);
        assert!(done(reset(Some(0), &here())).is_ok());
        assert_eq!(
            what(done(reset(Some(12), &here()))),
            format!("metal::{name} failed (rc=12)")
        );
    }
}

fn dump(status: i32, text: &[u8], written: i32) -> Option<HistogramDump> {
    let mut buffer = vec![0u8; HISTOGRAM_BUFFER];
    buffer[..text.len()].copy_from_slice(text);
    Some(HistogramDump { status, buffer, written })
}

#[test]
fn histogram_by_name_is_read_back() {
    assert_eq!(call(metal::prim_histogram_dynamic(None, &here())), 65_536);
    let text = "Add=3\nÜ=1\n";
    let read = done(metal::prim_histogram_dynamic(
        dump(0, text.as_bytes(), text.len() as i32),
        &here(),
    ));
    assert_eq!(read.unwrap(), text);
    let read = done(metal::prim_histogram_dynamic(dump(0, text.as_bytes(), 0), &here()));
    assert_eq!(read.unwrap(), "");
}

#[test]
fn histogram_by_name_may_fill_the_buffer() {
    let read = done(metal::prim_histogram_dynamic(dump(0, b"Add=3", 65_536), &here()));
    let read = read.unwrap();
    assert_eq!(read.len(), 65_536);
    assert!(read.starts_with("Add=3\0"));
}

#[test]
fn histogram_by_name_that_does_not_fit_is_refused() {
    for written in [65_537, i32::MAX] {
        assert_eq!(
            what(done(metal::prim_histogram_dynamic(dump(0, b"Add=3", written), &here()))),
            "metal::prim_histogram_dynamic: histogram does not fit the buffer"
        );
    }
    assert_eq!(
        what(done(metal::prim_histogram_dynamic(dump(7, b"Add=3", 65_537), &here()))),
        "metal::prim_histogram_dynamic failed (rc=7)"
    );
}

#[test]
fn histogram_by_name_with_a_negative_length_is_whole() {
    for written in [-1, i32::MIN] {
        let read = done(metal::prim_histogram_dynamic(dump(0, b"Add=3", written), &here()));
        assert_eq!(read.unwrap().len(), 65_536);
    }
}

#[test]
fn histogram_by_name_fails() {
    assert_eq!(
        what(done(metal::prim_histogram_dynamic(dump(5, b"", 0), &here()))),
        "metal::prim_histogram_dynamic failed (rc=5)"
    );
    assert_eq!(
        what(done(metal::prim_histogram_dynamic(dump(0, b"a\xffb", 3), &here()))),
        "prim_histogram_dynamic: non-UTF8 output: invalid utf-8 sequence of 1 bytes from index 1"
    );
    assert_eq!(
        what(done(metal::prim_histogram_dynamic(dump(0, "é".as_bytes(), 1), &here()))),
        "prim_histogram_dynamic: non-UTF8 output: incomplete utf-8 byte sequence from index 0"
    );
}

#[test]
fn decoded_histogram_is_handed_on() {
    assert_eq!(histogram_text(Ok("x=1".to_string()), &here()).unwrap(), "x=1");
    assert_eq!(
        what(histogram_text(Err("odd".to_string()), &here())),
        "prim_histogram_dynamic: non-UTF8 output: odd"
    );
}

#[test]
fn null_addresses_are_nothing() {
    assert_eq!(call(metal::allocator_malloc(64, None)), BufferCall::Malloc(64));
    assert_eq!(done(metal::allocator_malloc(64, Some(0))), None);
    assert_eq!(done(metal::allocator_malloc(64, Some(4096))), Some(4096));
    assert_eq!(metal::allocator_free(4096), BufferCall::Free(4096));
    assert_eq!(call(metal::current_command_buffer(None)), BufferCall::CurrentCommandBuffer);
    assert_eq!(done(metal::current_command_buffer(Some(0))), None);
    assert_eq!(done(metal::current_command_buffer(Some(8))), Some(8));
    assert_eq!(call(metal::default_command_queue(None)), BufferCall::DefaultCommandQueue);
    assert_eq!(done(metal::default_command_queue(Some(0))), None);
    assert_eq!(done(metal::default_command_queue(Some(9))), Some(9));
}

#[test]
fn array_adopts_a_buffer() {
    let step = metal::array_from_metal_buffer(4096, &[2, 3], 10, None, &here());
    let adopt = call(step);
    assert_eq!(adopt.buffer, 4096);
    assert_eq!(adopt.shape, vec![2, 3]);
    assert_eq!(adopt.ndim, 2);
    assert_eq!(adopt.dtype, 10);
    let made = metal::array_from_metal_buffer(4096, &[2, 3], 10, Some(handle(5)), &here());
    assert_eq!(done(made).unwrap().as_ptr(), handle(5));
    let none = metal::array_from_metal_buffer(4096, &[2, 3], 10, Some(handle(0)), &here());
    assert_eq!(
        what(done(none)),
        "metal::array_from_metal_buffer failed (see stderr for MLX diagnostic)"
    );
}

#[test]
fn attention_passes_its_mask() {
    let (q, k, v, m) = (array(1), array(2), array(3), array(4));
    let scale_bits = 0.5f32.to_bits();
    assert_eq!(
        metal::lumen_flash_attn_bf16(&off(), &q, &k, &v, Some(&m), scale_bits, &stream()).call,
        OpCall::FlashAttnBf16 {
            q: handle(1),
            k: handle(2),
            v: handle(3),
            has_mask: 1,
            mask: MaskHandle::Given(handle(4)),
            scale_bits,
            stream: MlxStream { ctx: 77 },
        }
    );
    match metal::lumen_flash_attn_bf16(&off(), &q, &k, &v, None, scale_bits, &stream()).call {
        OpCall::FlashAttnBf16 { has_mask, mask, .. } => {
            assert_eq!(has_mask, 0);
            assert_eq!(mask, MaskHandle::New);
        }
        _ => panic!("wrong call"),
    }
}

#[test]
fn attention_passes_its_windows() {
    let (q, k, v) = (array(1), array(2), array(3));
    assert_eq!(
        metal::lumen_flash_attn_prefill_bf16(&off(), &q, &k, &v, 7, 1024, 5, &stream()).call,
        OpCall::FlashAttnPrefillBf16 {
            q: handle(1),
            k: handle(2),
            v: handle(3),
            scale_bits: 7,
            window_size: 1024,
            kv_offset: 5,
            stream: MlxStream { ctx: 77 },
        }
    );
    assert_eq!(
        metal::lumen_sdpa_windowed(&off(), &q, &k, &v, 7, -3, &stream()).call,
        OpCall::SdpaWindowed {
            q: handle(1),
            k: handle(2),
            v: handle(3),
            scale_bits: 7,
            window: -3,
            stream: MlxStream { ctx: 77 },
        }
    );
}

#[test]
fn quantisation_passes_its_arrays() {
    let (a, b, c, d) = (array(1), array(2), array(3), array(4));
    let s = MlxStream { ctx: 77 };
    assert_eq!(
        metal::lumen_turboquant_encode(&off(), &a, &b, &stream()).call,
        OpCall::TurboquantEncode { x_norm: handle(1), boundaries: handle(2), stream: s }
    );
    assert_eq!(
        metal::lumen_qjl_pack_signs(&off(), &a, 33, &stream()).call,
        OpCall::QjlPackSigns { values: handle(1), m: 33, stream: s }
    );
    assert_eq!(
        metal::lumen_qjl_unpack_signs(&off(), &a, 34, &stream()).call,
        OpCall::QjlUnpackSigns { packed: handle(1), m: 34, stream: s }
    );
    assert_eq!(
        metal::lumen_turboquant_qk_inline(&off(), &a, &b, &c, &d, &stream()).call,
        OpCall::TurboquantQkInline {
            q: handle(1),
            k_codes: handle(2),
            k_sigma: handle(3),
            centroids: handle(4),
            stream: s,
        }
    );
    assert_eq!(
        metal::lumen_turboquant_qk_inline_packed4(&off(), &a, &b, &c, &d, &stream()).call,
        OpCall::TurboquantQkInlinePacked4 {
            q: handle(1),
            k_codes_pkd: handle(2),
            k_sigma: handle(3),
            centroids: handle(4),
            stream: s,
        }
    );
    assert_eq!(
        metal::lumen_turboquant_sv_inline(&off(), &a, &b, &c, &d, &stream()).call,
        OpCall::TurboquantSvInline {
            s: handle(1),
            v_codes: handle(2),
            v_sigma: handle(3),
            centroids: handle(4),
            stream: s,
        }
    );
}

#[test]
fn fused_encodings_pass_their_arrays() {
    let (a, b, c) = (array(1), array(2), array(3));
    let s = MlxStream { ctx: 77 };
    assert_eq!(
        metal::lumen_turboquant_encode_fused(&off(), &a, &b, &stream()).call,
        FusedCall::TurboquantEncodeFused { x_rot: handle(1), boundaries: handle(2), stream: s }
    );
    assert_eq!(
        metal::lumen_turboquant_rot_encode_fused(&off(), &a, &b, &c, &stream()).call,
        FusedCall::TurboquantRotEncodeFused {
            x_bf16: handle(1),
            r_f32: handle(2),
            boundaries: handle(3),
            stream: s,
        }
    );
    assert_eq!(
        metal::lumen_turboquant_encode_fused_packed4(&off(), &a, &b, &stream()).call,
        FusedCall::TurboquantEncodeFusedPacked4 {
            x_rot: handle(1),
            boundaries: handle(2),
            stream: s,
        }
    );
}

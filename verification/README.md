# mlx_metal

The decision logic of an MLX binding for the Metal backend, verified with Verus.

The library makes no call into MLX. A function gets the replies that have come so far and says what
is next: another call, or the end with its result. What it promises is stated in its contract and
proved. The binding around it, in `app/`, makes the calls through `mlx_sys`.

## Layout

| Where | What |
| --- | --- |
| `src/op.rs` | an operation from start to end: counting, timing, the call, its outcome |
| `src/guard.rs` | guards around results: handed on after a success, freed after a failure |
| `src/vector.rs` | vectors of arrays, taken out element by element |
| `src/instrument.rs`, `src/table.rs` | counting and timing of operations, per callsite |
| `src/memory.rs` | memory limits and queries |
| `src/metal/` | capture, counters, buffers and kernels of the Metal backend |
| `src/laws/` | what holds of the library as a whole |
| `src/call.rs`, `src/error.rs`, `src/handles.rs`, `src/text.rs` | what the others build on |
| `tests/` | the library, run on concrete values |
| `app/` | the binding: calls, locks, clocks, and values that free what they own |

## What is not proved

Two functions from outside are taken at their word: `half::bf16::from_bits` (`src/guard.rs`) and
`String::from_utf8` (`src/metal/stats.rs`). Their contracts say what is relied on.

The only floating-point type that the library names is `half::bf16`, which it hands on unopened. A
scale is given by its bits.

//! Metal buffers that MLX allocates, so that they take part in its residency tracking, and that
//! arrays adopt without a copy. An address of zero stands for the null pointer.

use vstd::prelude::*;
use vstd::slice::slice_to_vec;

use crate::call::Step;
use crate::error::{Exception, ExceptionView, Location};
use crate::handles::{Array, MlxArray};

verus! {

/// A call that deals in addresses.
#[derive(Clone, Copy, Debug, PartialEq, Eq, Structural)]
pub enum BufferCall {
    /// `_mlx_metal_allocator_malloc`, with a size in bytes.
    Malloc(usize),
    /// `_mlx_metal_allocator_free`, with the address of a buffer.
    Free(usize),
    /// `_mlx_metal_current_command_buffer`.
    CurrentCommandBuffer,
    /// `_mlx_metal_default_command_queue`.
    DefaultCommandQueue,
}

/// The address that a call returned, unless it is null.
pub open spec fn unless_null(address: usize) -> Option<usize> {
    if address == 0 {
        None
    } else {
        Some(address)
    }
}

fn check_null(address: usize) -> (found: Option<usize>)
    ensures
        found == unless_null(address),
{
    if address == 0 {
        None
    } else {
        Some(address)
    }
}

/// Allocates a buffer of `size_bytes` bytes. Nothing comes back where that fails. The buffer is
/// the caller's: either an array adopts it, or `allocator_free` releases it.
pub fn allocator_malloc(size_bytes: usize, reply: Option<usize>) -> (step: Step<
    BufferCall,
    Option<usize>,
>)
    ensures
        step == (match reply {
            None => Step::<BufferCall, Option<usize>>::Call(BufferCall::Malloc(size_bytes)),
            Some(address) => Step::Done(unless_null(address)),
        }),
{
    match reply {
        None => Step::Call(BufferCall::Malloc(size_bytes)),
        Some(address) => Step::Done(check_null(address)),
    }
}

/// Frees a buffer that `allocator_malloc` gave and that no array has adopted.
pub fn allocator_free(address: usize) -> (call: BufferCall)
    ensures
        call == BufferCall::Free(address),
{
    BufferCall::Free(address)
}

/// The command buffer that is being encoded into, borrowed. Nothing comes back where Metal is
/// not available.
pub fn current_command_buffer(reply: Option<usize>) -> (step: Step<BufferCall, Option<usize>>)
    ensures
        step == (match reply {
            None => Step::<BufferCall, Option<usize>>::Call(BufferCall::CurrentCommandBuffer),
            Some(address) => Step::Done(unless_null(address)),
        }),
{
    match reply {
        None => Step::Call(BufferCall::CurrentCommandBuffer),
        Some(address) => Step::Done(check_null(address)),
    }
}

/// The command queue of the default stream, borrowed. Nothing comes back where Metal is not
/// available.
pub fn default_command_queue(reply: Option<usize>) -> (step: Step<BufferCall, Option<usize>>)
    ensures
        step == (match reply {
            None => Step::<BufferCall, Option<usize>>::Call(BufferCall::DefaultCommandQueue),
            Some(address) => Step::Done(unless_null(address)),
        }),
{
    match reply {
        None => Step::Call(BufferCall::DefaultCommandQueue),
        Some(address) => Step::Done(check_null(address)),
    }
}

/// `_mlx_array_new_from_metal_buffer`, with its arguments.
pub struct AdoptCall {
    pub buffer: usize,
    pub shape: Vec<i32>,
    pub ndim: i32,
    pub dtype: u32,
}

/// Makes an array that adopts a buffer which `allocator_malloc` gave. `dtype` is the number of
/// the element type in mlx-c.
pub fn array_from_metal_buffer(
    buffer: usize,
    shape: &[i32],
    dtype: u32,
    reply: Option<MlxArray>,
    here: &Location,
) -> (step: Step<AdoptCall, Result<Array, Exception>>)
    ensures
        match reply {
            None => {
                &&& step matches Step::Call(call)
                &&& call.buffer == buffer
                &&& call.shape@ == shape@
                &&& call.ndim == shape@.len() as i32
                &&& call.dtype == dtype
            },
            Some(c_array) => {
                &&& step matches Step::Done(result)
                &&& c_array.ctx != 0 ==> result == Ok::<Array, Exception>(Array { c_array })
                &&& c_array.ctx == 0 ==> (result matches Err(e) && e@ == (ExceptionView {
                    what:
                        "metal::array_from_metal_buffer failed (see stderr for MLX diagnostic)"@,
                    location: here@,
                }))
            },
        },
{
    match reply {
        None => Step::Call(
            AdoptCall { buffer, shape: slice_to_vec(shape), ndim: shape.len() as i32, dtype },
        ),
        Some(c_array) => Step::Done(
            if c_array.ctx == 0 {
                let what: &str =
                    "metal::array_from_metal_buffer failed (see stderr for MLX diagnostic)";
                Err(Exception::custom(what.to_owned(), here))
            } else {
                Ok(Array::from_ptr(c_array))
            },
        ),
    }
}

} // verus!

//! The handles of mlx-c, and the values that own them.
//!
//! A handle is the address that mlx-c keeps behind one of its structs; zero stands for the null
//! pointer. Handles are plain values. What owns one is a value of a type of its own, which is
//! neither copied nor cloned.

use vstd::prelude::*;

verus! {

/// `mlx_array`.
#[derive(Clone, Copy, Debug, PartialEq, Eq, Structural)]
pub struct MlxArray {
    pub ctx: usize,
}

/// `mlx_vector_array`.
#[derive(Clone, Copy, Debug, PartialEq, Eq, Structural)]
pub struct MlxVectorArray {
    pub ctx: usize,
}

/// `mlx_device`.
#[derive(Clone, Copy, Debug, PartialEq, Eq, Structural)]
pub struct MlxDevice {
    pub ctx: usize,
}

/// `mlx_stream`.
#[derive(Clone, Copy, Debug, PartialEq, Eq, Structural)]
pub struct MlxStream {
    pub ctx: usize,
}

/// `mlx_map_string_to_array`.
#[derive(Clone, Copy, Debug, PartialEq, Eq, Structural)]
pub struct MlxMapStringToArray {
    pub ctx: usize,
}

/// `mlx_map_string_to_string`.
#[derive(Clone, Copy, Debug, PartialEq, Eq, Structural)]
pub struct MlxMapStringToString {
    pub ctx: usize,
}

/// `mlx_closure`.
#[derive(Clone, Copy, Debug, PartialEq, Eq, Structural)]
pub struct MlxClosure {
    pub ctx: usize,
}

/// `mlx_closure_value_and_grad`.
#[derive(Clone, Copy, Debug, PartialEq, Eq, Structural)]
pub struct MlxClosureValueAndGrad {
    pub ctx: usize,
}

/// A handle of any kind: what is to be freed, and by which of mlx-c's functions.
#[derive(Clone, Copy, Debug, PartialEq, Eq, Structural)]
pub enum Handle {
    Array(MlxArray),
    VectorArray(MlxVectorArray),
    Device(MlxDevice),
    Stream(MlxStream),
    MapStringToArray(MlxMapStringToArray),
    MapStringToString(MlxMapStringToString),
    Closure(MlxClosure),
    ClosureValueAndGrad(MlxClosureValueAndGrad),
}

/// An array.
#[derive(Debug, PartialEq, Eq, Structural)]
pub struct Array {
    pub c_array: MlxArray,
}

impl Array {
    /// Takes ownership of an array handle.
    pub fn from_ptr(c_array: MlxArray) -> (array: Array)
        ensures
            array.c_array == c_array,
    {
        Array { c_array }
    }

    /// The handle, for a call that borrows the array.
    pub fn as_ptr(&self) -> (c_array: MlxArray)
        ensures
            c_array == self.c_array,
    {
        self.c_array
    }
}

/// A vector of arrays, still on the other side.
#[derive(Debug, PartialEq, Eq, Structural)]
pub struct VectorArray {
    pub c_vec: MlxVectorArray,
}

/// A device.
#[derive(Debug, PartialEq, Eq, Structural)]
pub struct Device {
    pub c_device: MlxDevice,
}

/// The kind of a device.
#[derive(Clone, Copy, Debug, PartialEq, Eq, Structural)]
pub enum DeviceType {
    Cpu,
    Gpu,
}

/// `MLX_CPU` of `mlx_device_type`.
pub const MLX_CPU: u32 = 0;

/// `MLX_GPU` of `mlx_device_type`.
pub const MLX_GPU: u32 = 1;

/// A stream.
#[derive(Debug, PartialEq, Eq, Structural)]
pub struct Stream {
    pub c_stream: MlxStream,
    /// Someone else frees the handle.
    pub borrowed: bool,
}

impl Stream {
    /// The handle, for a call that runs on the stream.
    pub fn as_ptr(&self) -> (c_stream: MlxStream)
        ensures
            c_stream == self.c_stream,
    {
        self.c_stream
    }
}

/// The contents of a safetensors file: its tensors, and its metadata.
#[derive(Debug, PartialEq, Eq, Structural)]
pub struct SafeTensors {
    pub c_metadata: MlxMapStringToString,
    pub c_data: MlxMapStringToArray,
}

/// A closure.
#[derive(Debug, PartialEq, Eq, Structural)]
pub struct Closure {
    pub c_closure: MlxClosure,
}

/// A closure that gives value and gradient.
#[derive(Debug, PartialEq, Eq, Structural)]
pub struct ClosureValueAndGrad {
    pub c_closure_value_and_grad: MlxClosureValueAndGrad,
}

} // verus!

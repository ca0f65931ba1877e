//! Guards around the results of MLX operations.
//!
//! An operation of mlx-c writes its result behind a pointer and returns a status. Until the
//! status is known, a guard holds what the pointer points to. On success the guard hands it on
//! to the value that owns it from then on; otherwise the guard frees it.

use vstd::prelude::*;

use crate::error::{Exception, ExceptionView, Location, LocationView};
use crate::handles::{
    Array, Closure, ClosureValueAndGrad, Device, DeviceType, Handle, MlxArray, MlxClosure,
    MlxClosureValueAndGrad, MlxDevice, MlxMapStringToArray, MlxMapStringToString, MlxStream,
    MlxVectorArray, SafeTensors, Stream, VectorArray, MLX_CPU, MLX_GPU,
};

verus! {

/// The status of an operation that succeeded.
pub const SUCCESS: i32 = 0;

/// Holds the result of an operation until its status is known.
pub trait Guard<T>: Sized {
    /// What the operation writes.
    type Raw;

    /// What the guard holds.
    spec fn raw(&self) -> Self::Raw;

    /// The guard may hand on what it holds.
    spec fn ready(&self) -> bool;

    /// The guard may not hand on anything of what it holds.
    spec fn fresh(&self) -> bool;

    /// The handles among what a guard may hold.
    spec fn handles(raw: Self::Raw) -> Seq<Handle>;

    /// The handles that are freed where the guard is dropped as it is, in their order.
    spec fn frees(&self) -> Seq<Handle>;

    /// The handles that a value owns.
    spec fn owned(guarded: T) -> Seq<Handle>;

    /// `result` is what a guard that holds `raw` hands on.
    spec fn yields(raw: Self::Raw, here: LocationView, result: Result<T, Exception>) -> bool;

    /// A fresh guard frees all that it holds.
    proof fn fresh_frees_all(&self)
        requires
            self.fresh(),
        ensures
            self.frees() == Self::handles(self.raw()),
    ;

    /// A guard that is ready frees nothing.
    proof fn ready_frees_nothing(&self)
        requires
            self.ready(),
        ensures
            self.frees() == Seq::<Handle>::empty(),
    ;

    /// What a guard hands on owns all that the guard holds.
    proof fn hands_on_all(raw: Self::Raw, here: LocationView, guarded: T)
        requires
            Self::yields(raw, here, Ok(guarded)),
        ensures
            Self::owned(guarded) == Self::handles(raw),
    ;

    /// Takes what the operation has written.
    fn fill(&mut self, raw: Self::Raw)
        ensures
            final(self).raw() == raw,
            final(self).ready() == old(self).ready(),
            final(self).fresh() == old(self).fresh(),
    ;

    /// Says whether the operation succeeded.
    fn set_init_success(&mut self, success: bool)
        ensures
            final(self).raw() == old(self).raw(),
            success ==> final(self).ready(),
            !success ==> final(self).fresh(),
    ;

    /// The handles that are to be freed where the guard is dropped as it is, in their order.
    fn on_drop(&self) -> (freed: Vec<Handle>)
        ensures
            freed@ == self.frees(),
    ;

    /// Hands on what the guard holds.
    fn try_into_guarded(self, here: &Location) -> (result: Result<T, Exception>)
        requires
            self.ready(),
        ensures
            Self::yields(self.raw(), here@, result),
    ;
}

/// A type whose values come out of operations.
pub trait Guarded: Sized {
    /// The guard around such a value.
    type Guard: Guard<Self>;
}

/// How an operation ends.
pub struct Settled<T> {
    /// What the caller gets.
    pub result: Result<T, Exception>,
    /// What is to be freed, in this order.
    pub freed: Vec<Handle>,
}

/// The error that an operation at `at` ends with, where MLX left `what` behind.
pub open spec fn op_failure(what: Seq<char>, at: LocationView) -> ExceptionView {
    ExceptionView { what, location: at }
}

/// How an operation ends that succeeded and left `raw` in its guard.
pub open spec fn succeeds<T, G: Guard<T>>(
    raw: G::Raw,
    here: LocationView,
    settled: Settled<T>,
) -> bool {
    &&& G::yields(raw, here, settled.result)
    &&& settled.freed@ == Seq::<Handle>::empty()
}

/// How an operation at `at` ends that failed, where MLX left `what` behind.
pub open spec fn fails<T, G: Guard<T>>(
    guard: G,
    what: Seq<char>,
    at: LocationView,
    settled: Settled<T>,
) -> bool {
    &&& settled.result matches Err(e) && e@ == op_failure(what, at)
    &&& settled.freed@ == guard.frees()
}

/// Ends an operation that succeeded: the guard hands on what it holds.
pub fn settle_success<T, G: Guard<T>>(guard: G, here: &Location) -> (settled: Settled<T>)
    ensures
        succeeds::<T, G>(guard.raw(), here@, settled),
{
    let mut guard: G = guard;
    guard.set_init_success(true);
    let freed: Vec<Handle> = guard.on_drop();
    proof {
        guard.ready_frees_nothing();
    }
    Settled { result: guard.try_into_guarded(here), freed }
}

/// Ends an operation that failed: the guard is dropped, and the error holds the message that MLX
/// left behind and the place where the operation was called.
pub fn settle_failure<T, G: Guard<T>>(guard: G, what: String, at: &Location) -> (settled: Settled<
    T,
>)
    ensures
        fails(guard, what@, at@, settled),
{
    let freed: Vec<Handle> = guard.on_drop();
    Settled { result: Err(Exception { what, location: at.clone() }), freed }
}

/// Holds an array handle.
pub struct MaybeUninitArray {
    pub ptr: MlxArray,
    pub init_success: bool,
}

impl MaybeUninitArray {
    /// A guard around a new handle.
    pub fn new(ptr: MlxArray) -> (guard: Self)
        ensures
            guard == (MaybeUninitArray { ptr, init_success: false }),
    {
        MaybeUninitArray { ptr, init_success: false }
    }
}

impl Guard<Array> for MaybeUninitArray {
    type Raw = MlxArray;

    open spec fn raw(&self) -> MlxArray {
        self.ptr
    }

    open spec fn ready(&self) -> bool {
        self.init_success
    }

    open spec fn fresh(&self) -> bool {
        !self.init_success
    }

    open spec fn handles(raw: MlxArray) -> Seq<Handle> {
        seq![Handle::Array(raw)]
    }

    open spec fn frees(&self) -> Seq<Handle> {
        if self.init_success {
            Seq::empty()
        } else {
            seq![Handle::Array(self.ptr)]
        }
    }

    open spec fn owned(guarded: Array) -> Seq<Handle> {
        seq![Handle::Array(guarded.c_array)]
    }

    open spec fn yields(
        raw: MlxArray,
        here: LocationView,
        result: Result<Array, Exception>,
    ) -> bool {
        result matches Ok(array) && array.c_array == raw
    }

    proof fn fresh_frees_all(&self) {
    }

    proof fn ready_frees_nothing(&self) {
    }

    proof fn hands_on_all(raw: MlxArray, here: LocationView, guarded: Array) {
    }

    fn fill(&mut self, raw: MlxArray)
        ensures
            *final(self) == (MaybeUninitArray { ptr: raw, ..*old(self) }),
    {
        self.ptr = raw;
    }

    fn set_init_success(&mut self, success: bool)
        ensures
            *final(self) == (MaybeUninitArray { init_success: success, ..*old(self) }),
    {
        self.init_success = success;
    }

    fn on_drop(&self) -> (freed: Vec<Handle>) {
        let mut freed: Vec<Handle> = Vec::new();
        if !self.init_success {
            freed.push(Handle::Array(self.ptr));
        }
        freed
    }

    fn try_into_guarded(self, here: &Location) -> (result: Result<Array, Exception>) {
        Ok(Array::from_ptr(self.ptr))
    }
}

impl Guarded for Array {
    type Guard = MaybeUninitArray;
}

/// Holds the handle of a vector of arrays.
pub struct MaybeUninitVectorArray {
    pub ptr: MlxVectorArray,
    pub init_success: bool,
}

impl MaybeUninitVectorArray {
    /// A guard around a new handle.
    pub fn new(ptr: MlxVectorArray) -> (guard: Self)
        ensures
            guard == (MaybeUninitVectorArray { ptr, init_success: false }),
    {
        MaybeUninitVectorArray { ptr, init_success: false }
    }
}

impl Guard<VectorArray> for MaybeUninitVectorArray {
    type Raw = MlxVectorArray;

    open spec fn raw(&self) -> MlxVectorArray {
        self.ptr
    }

    open spec fn ready(&self) -> bool {
        self.init_success
    }

    open spec fn fresh(&self) -> bool {
        !self.init_success
    }

    open spec fn handles(raw: MlxVectorArray) -> Seq<Handle> {
        seq![Handle::VectorArray(raw)]
    }

    open spec fn frees(&self) -> Seq<Handle> {
        if self.init_success {
            Seq::empty()
        } else {
            seq![Handle::VectorArray(self.ptr)]
        }
    }

    open spec fn owned(guarded: VectorArray) -> Seq<Handle> {
        seq![Handle::VectorArray(guarded.c_vec)]
    }

    open spec fn yields(
        raw: MlxVectorArray,
        here: LocationView,
        result: Result<VectorArray, Exception>,
    ) -> bool {
        result matches Ok(guarded) && guarded == (VectorArray { c_vec: raw })
    }

    proof fn fresh_frees_all(&self) {
    }

    proof fn ready_frees_nothing(&self) {
    }

    proof fn hands_on_all(raw: MlxVectorArray, here: LocationView, guarded: VectorArray) {
    }

    fn fill(&mut self, raw: MlxVectorArray)
        ensures
            *final(self) == (MaybeUninitVectorArray { ptr: raw, ..*old(self) }),
    {
        self.ptr = raw;
    }

    fn set_init_success(&mut self, success: bool)
        ensures
            *final(self) == (MaybeUninitVectorArray { init_success: success, ..*old(self) }),
    {
        self.init_success = success;
    }

    fn on_drop(&self) -> (freed: Vec<Handle>) {
        let mut freed: Vec<Handle> = Vec::new();
        if !self.init_success {
            freed.push(Handle::VectorArray(self.ptr));
        }
        freed
    }

    fn try_into_guarded(self, here: &Location) -> (result: Result<VectorArray, Exception>) {
        Ok(VectorArray { c_vec: self.ptr })
    }
}

impl Guarded for VectorArray {
    type Guard = MaybeUninitVectorArray;
}

/// Holds a device handle.
pub struct MaybeUninitDevice {
    pub ptr: MlxDevice,
    pub init_success: bool,
}

impl MaybeUninitDevice {
    /// A guard around a new handle.
    pub fn new(ptr: MlxDevice) -> (guard: Self)
        ensures
            guard == (MaybeUninitDevice { ptr, init_success: false }),
    {
        MaybeUninitDevice { ptr, init_success: false }
    }
}

impl Guard<Device> for MaybeUninitDevice {
    type Raw = MlxDevice;

    open spec fn raw(&self) -> MlxDevice {
        self.ptr
    }

    open spec fn ready(&self) -> bool {
        self.init_success
    }

    open spec fn fresh(&self) -> bool {
        !self.init_success
    }

    open spec fn handles(raw: MlxDevice) -> Seq<Handle> {
        seq![Handle::Device(raw)]
    }

    open spec fn frees(&self) -> Seq<Handle> {
        if self.init_success {
            Seq::empty()
        } else {
            seq![Handle::Device(self.ptr)]
        }
    }

    open spec fn owned(guarded: Device) -> Seq<Handle> {
        seq![Handle::Device(guarded.c_device)]
    }

    open spec fn yields(
        raw: MlxDevice,
        here: LocationView,
        result: Result<Device, Exception>,
    ) -> bool {
        result matches Ok(guarded) && guarded == (Device { c_device: raw })
    }

    proof fn fresh_frees_all(&self) {
    }

    proof fn ready_frees_nothing(&self) {
    }

    proof fn hands_on_all(raw: MlxDevice, here: LocationView, guarded: Device) {
    }

    fn fill(&mut self, raw: MlxDevice)
        ensures
            *final(self) == (MaybeUninitDevice { ptr: raw, ..*old(self) }),
    {
        self.ptr = raw;
    }

    fn set_init_success(&mut self, success: bool)
        ensures
            *final(self) == (MaybeUninitDevice { init_success: success, ..*old(self) }),
    {
        self.init_success = success;
    }

    fn on_drop(&self) -> (freed: Vec<Handle>) {
        let mut freed: Vec<Handle> = Vec::new();
        if !self.init_success {
            freed.push(Handle::Device(self.ptr));
        }
        freed
    }

    fn try_into_guarded(self, here: &Location) -> (result: Result<Device, Exception>) {
        Ok(Device { c_device: self.ptr })
    }
}

impl Guarded for Device {
    type Guard = MaybeUninitDevice;
}

/// Holds a stream handle.
pub struct MaybeUninitStream {
    pub ptr: MlxStream,
    pub init_success: bool,
}

impl MaybeUninitStream {
    /// A guard around a new handle.
    pub fn new(ptr: MlxStream) -> (guard: Self)
        ensures
            guard == (MaybeUninitStream { ptr, init_success: false }),
    {
        MaybeUninitStream { ptr, init_success: false }
    }
}

impl Guard<Stream> for MaybeUninitStream {
    type Raw = MlxStream;

    open spec fn raw(&self) -> MlxStream {
        self.ptr
    }

    open spec fn ready(&self) -> bool {
        self.init_success
    }

    open spec fn fresh(&self) -> bool {
        !self.init_success
    }

    open spec fn handles(raw: MlxStream) -> Seq<Handle> {
        seq![Handle::Stream(raw)]
    }

    open spec fn frees(&self) -> Seq<Handle> {
        if self.init_success {
            Seq::empty()
        } else {
            seq![Handle::Stream(self.ptr)]
        }
    }

    open spec fn owned(guarded: Stream) -> Seq<Handle> {
        seq![Handle::Stream(guarded.c_stream)]
    }

    open spec fn yields(
        raw: MlxStream,
        here: LocationView,
        result: Result<Stream, Exception>,
    ) -> bool {
        result matches Ok(guarded) && guarded == (Stream { c_stream: raw, borrowed: false })
    }

    proof fn fresh_frees_all(&self) {
    }

    proof fn ready_frees_nothing(&self) {
    }

    proof fn hands_on_all(raw: MlxStream, here: LocationView, guarded: Stream) {
    }

    fn fill(&mut self, raw: MlxStream)
        ensures
            *final(self) == (MaybeUninitStream { ptr: raw, ..*old(self) }),
    {
        self.ptr = raw;
    }

    fn set_init_success(&mut self, success: bool)
        ensures
            *final(self) == (MaybeUninitStream { init_success: success, ..*old(self) }),
    {
        self.init_success = success;
    }

    fn on_drop(&self) -> (freed: Vec<Handle>) {
        let mut freed: Vec<Handle> = Vec::new();
        if !self.init_success {
            freed.push(Handle::Stream(self.ptr));
        }
        freed
    }

    fn try_into_guarded(self, here: &Location) -> (result: Result<Stream, Exception>) {
        Ok(Stream { c_stream: self.ptr, borrowed: false })
    }
}

impl Guarded for Stream {
    type Guard = MaybeUninitStream;
}

/// Holds a closure handle.
pub struct MaybeUninitClosure {
    pub ptr: MlxClosure,
    pub init_success: bool,
}

impl MaybeUninitClosure {
    /// A guard around a new handle.
    pub fn new(ptr: MlxClosure) -> (guard: Self)
        ensures
            guard == (MaybeUninitClosure { ptr, init_success: false }),
    {
        MaybeUninitClosure { ptr, init_success: false }
    }
}

impl Guard<Closure> for MaybeUninitClosure {
    type Raw = MlxClosure;

    open spec fn raw(&self) -> MlxClosure {
        self.ptr
    }

    open spec fn ready(&self) -> bool {
        self.init_success
    }

    open spec fn fresh(&self) -> bool {
        !self.init_success
    }

    open spec fn handles(raw: MlxClosure) -> Seq<Handle> {
        seq![Handle::Closure(raw)]
    }

    open spec fn frees(&self) -> Seq<Handle> {
        if self.init_success {
            Seq::empty()
        } else {
            seq![Handle::Closure(self.ptr)]
        }
    }

    open spec fn owned(guarded: Closure) -> Seq<Handle> {
        seq![Handle::Closure(guarded.c_closure)]
    }

    open spec fn yields(
        raw: MlxClosure,
        here: LocationView,
        result: Result<Closure, Exception>,
    ) -> bool {
        result matches Ok(guarded) && guarded == (Closure { c_closure: raw })
    }

    proof fn fresh_frees_all(&self) {
    }

    proof fn ready_frees_nothing(&self) {
    }

    proof fn hands_on_all(raw: MlxClosure, here: LocationView, guarded: Closure) {
    }

    fn fill(&mut self, raw: MlxClosure)
        ensures
            *final(self) == (MaybeUninitClosure { ptr: raw, ..*old(self) }),
    {
        self.ptr = raw;
    }

    fn set_init_success(&mut self, success: bool)
        ensures
            *final(self) == (MaybeUninitClosure { init_success: success, ..*old(self) }),
    {
        self.init_success = success;
    }

    fn on_drop(&self) -> (freed: Vec<Handle>) {
        let mut freed: Vec<Handle> = Vec::new();
        if !self.init_success {
            freed.push(Handle::Closure(self.ptr));
        }
        freed
    }

    fn try_into_guarded(self, here: &Location) -> (result: Result<Closure, Exception>) {
        Ok(Closure { c_closure: self.ptr })
    }
}

impl Guarded for Closure {
    type Guard = MaybeUninitClosure;
}

/// Holds the handle of a closure that gives value and gradient.
pub struct MaybeUninitClosureValueAndGrad {
    pub ptr: MlxClosureValueAndGrad,
    pub init_success: bool,
}

impl MaybeUninitClosureValueAndGrad {
    /// A guard around a new handle.
    pub fn new(ptr: MlxClosureValueAndGrad) -> (guard: Self)
        ensures
            guard == (MaybeUninitClosureValueAndGrad { ptr, init_success: false }),
    {
        MaybeUninitClosureValueAndGrad { ptr, init_success: false }
    }
}

impl Guard<ClosureValueAndGrad> for MaybeUninitClosureValueAndGrad {
    type Raw = MlxClosureValueAndGrad;

    open spec fn raw(&self) -> MlxClosureValueAndGrad {
        self.ptr
    }

    open spec fn ready(&self) -> bool {
        self.init_success
    }

    open spec fn fresh(&self) -> bool {
        !self.init_success
    }

    open spec fn handles(raw: MlxClosureValueAndGrad) -> Seq<Handle> {
        seq![Handle::ClosureValueAndGrad(raw)]
    }

    open spec fn frees(&self) -> Seq<Handle> {
        if self.init_success {
            Seq::empty()
        } else {
            seq![Handle::ClosureValueAndGrad(self.ptr)]
        }
    }

    open spec fn owned(guarded: ClosureValueAndGrad) -> Seq<Handle> {
        seq![Handle::ClosureValueAndGrad(guarded.c_closure_value_and_grad)]
    }

    open spec fn yields(
        raw: MlxClosureValueAndGrad,
        here: LocationView,
        result: Result<ClosureValueAndGrad, Exception>,
    ) -> bool {
        result matches Ok(guarded) && guarded.c_closure_value_and_grad == raw
    }

    proof fn fresh_frees_all(&self) {
    }

    proof fn ready_frees_nothing(&self) {
    }

    proof fn hands_on_all(
        raw: MlxClosureValueAndGrad,
        here: LocationView,
        guarded: ClosureValueAndGrad,
    ) {
    }

    fn fill(&mut self, raw: MlxClosureValueAndGrad)
        ensures
            *final(self) == (MaybeUninitClosureValueAndGrad { ptr: raw, ..*old(self) }),
    {
        self.ptr = raw;
    }

    fn set_init_success(&mut self, success: bool)
        ensures
            final(self).ptr == old(self).ptr,
            final(self).init_success == success,
    {
        self.init_success = success;
    }

    fn on_drop(&self) -> (freed: Vec<Handle>) {
        let mut freed: Vec<Handle> = Vec::new();
        if !self.init_success {
            freed.push(Handle::ClosureValueAndGrad(self.ptr));
        }
        freed
    }

    fn try_into_guarded(self, here: &Location) -> (result: Result<ClosureValueAndGrad, Exception>) {
        Ok(ClosureValueAndGrad { c_closure_value_and_grad: self.ptr })
    }
}

impl Guarded for ClosureValueAndGrad {
    type Guard = MaybeUninitClosureValueAndGrad;
}

/// Holds the two handles of a safetensors file.
pub struct MaybeUninitSafeTensors {
    pub c_data: MlxMapStringToArray,
    pub c_metadata: MlxMapStringToString,
    pub init_success: bool,
}

impl MaybeUninitSafeTensors {
    /// A guard around two new handles.
    pub fn new(c_metadata: MlxMapStringToString, c_data: MlxMapStringToArray) -> (guard: Self)
        ensures
            guard == (MaybeUninitSafeTensors { c_data, c_metadata, init_success: false }),
    {
        MaybeUninitSafeTensors { c_metadata, c_data, init_success: false }
    }
}

impl Guard<SafeTensors> for MaybeUninitSafeTensors {
    type Raw = (MlxMapStringToArray, MlxMapStringToString);

    open spec fn raw(&self) -> (MlxMapStringToArray, MlxMapStringToString) {
        (self.c_data, self.c_metadata)
    }

    open spec fn ready(&self) -> bool {
        self.init_success
    }

    open spec fn fresh(&self) -> bool {
        !self.init_success
    }

    open spec fn handles(raw: (MlxMapStringToArray, MlxMapStringToString)) -> Seq<Handle> {
        seq![Handle::MapStringToString(raw.1), Handle::MapStringToArray(raw.0)]
    }

    open spec fn frees(&self) -> Seq<Handle> {
        if self.init_success {
            Seq::empty()
        } else {
            seq![Handle::MapStringToString(self.c_metadata), Handle::MapStringToArray(self.c_data)]
        }
    }

    open spec fn owned(guarded: SafeTensors) -> Seq<Handle> {
        seq![
            Handle::MapStringToString(guarded.c_metadata),
            Handle::MapStringToArray(guarded.c_data),
        ]
    }

    open spec fn yields(
        raw: (MlxMapStringToArray, MlxMapStringToString),
        here: LocationView,
        result: Result<SafeTensors, Exception>,
    ) -> bool {
        result matches Ok(guarded) && guarded == (SafeTensors { c_metadata: raw.1, c_data: raw.0 })
    }

    proof fn fresh_frees_all(&self) {
    }

    proof fn ready_frees_nothing(&self) {
    }

    proof fn hands_on_all(
        raw: (MlxMapStringToArray, MlxMapStringToString),
        here: LocationView,
        guarded: SafeTensors,
    ) {
    }

    fn fill(&mut self, raw: (MlxMapStringToArray, MlxMapStringToString))
        ensures
            *final(self) == (MaybeUninitSafeTensors {
                c_data: raw.0,
                c_metadata: raw.1,
                ..*old(self)
            }),
    {
        self.c_data = raw.0;
        self.c_metadata = raw.1;
    }

    fn set_init_success(&mut self, success: bool)
        ensures
            *final(self) == (MaybeUninitSafeTensors { init_success: success, ..*old(self) }),
    {
        self.init_success = success;
    }

    fn on_drop(&self) -> (freed: Vec<Handle>) {
        let mut freed: Vec<Handle> = Vec::new();
        if !self.init_success {
            freed.push(Handle::MapStringToString(self.c_metadata));
            freed.push(Handle::MapStringToArray(self.c_data));
        }
        freed
    }

    fn try_into_guarded(self, here: &Location) -> (result: Result<SafeTensors, Exception>) {
        Ok(SafeTensors { c_metadata: self.c_metadata, c_data: self.c_data })
    }
}

impl Guarded for SafeTensors {
    type Guard = MaybeUninitSafeTensors;
}

impl Guard<(Array, Array)> for (MaybeUninitArray, MaybeUninitArray) {
    type Raw = (MlxArray, MlxArray);

    open spec fn raw(&self) -> (MlxArray, MlxArray) {
        (self.0.ptr, self.1.ptr)
    }

    open spec fn ready(&self) -> bool {
        self.0.init_success && self.1.init_success
    }

    open spec fn fresh(&self) -> bool {
        !self.0.init_success && !self.1.init_success
    }

    open spec fn handles(raw: (MlxArray, MlxArray)) -> Seq<Handle> {
        seq![Handle::Array(raw.0), Handle::Array(raw.1)]
    }

    open spec fn frees(&self) -> Seq<Handle> {
        self.0.frees() + self.1.frees()
    }

    open spec fn owned(guarded: (Array, Array)) -> Seq<Handle> {
        seq![
            Handle::Array(guarded.0.c_array),
            Handle::Array(guarded.1.c_array),
        ]
    }

    open spec fn yields(
        raw: (MlxArray, MlxArray),
        here: LocationView,
        result: Result<(Array, Array), Exception>,
    ) -> bool {
        &&& result matches Ok(guarded)
        &&& guarded.0.c_array == raw.0
        &&& guarded.1.c_array == raw.1
    }

    proof fn fresh_frees_all(&self) {
    }

    proof fn ready_frees_nothing(&self) {
    }

    proof fn hands_on_all(raw: (MlxArray, MlxArray), here: LocationView, guarded: (Array, Array)) {
    }

    fn fill(&mut self, raw: (MlxArray, MlxArray))
        ensures
            final(self).0 == (MaybeUninitArray { ptr: raw.0, ..old(self).0 }),
            final(self).1 == (MaybeUninitArray { ptr: raw.1, ..old(self).1 }),
    {
        self.0.fill(raw.0);
        self.1.fill(raw.1);
    }

    fn set_init_success(&mut self, success: bool)
        ensures
            final(self).0 == (MaybeUninitArray { init_success: success, ..old(self).0 }),
            final(self).1 == (MaybeUninitArray { init_success: success, ..old(self).1 }),
    {
        self.0.set_init_success(success);
        self.1.set_init_success(success);
    }

    fn on_drop(&self) -> (freed: Vec<Handle>) {
        let mut freed: Vec<Handle> = self.0.on_drop();
        freed.append(&mut self.1.on_drop());
        freed
    }

    fn try_into_guarded(self, here: &Location) -> (result: Result<(Array, Array), Exception>) {
        Ok((
            self.0.try_into_guarded(here)?,
            self.1.try_into_guarded(here)?,
        ))
    }
}

impl Guarded for (Array, Array) {
    type Guard = (MaybeUninitArray, MaybeUninitArray);
}

impl Guard<(Array, Array, Array)> for (MaybeUninitArray, MaybeUninitArray, MaybeUninitArray) {
    type Raw = (MlxArray, MlxArray, MlxArray);

    open spec fn raw(&self) -> (MlxArray, MlxArray, MlxArray) {
        (self.0.ptr, self.1.ptr, self.2.ptr)
    }

    open spec fn ready(&self) -> bool {
        self.0.init_success && self.1.init_success && self.2.init_success
    }

    open spec fn fresh(&self) -> bool {
        !self.0.init_success && !self.1.init_success && !self.2.init_success
    }

    open spec fn handles(raw: (MlxArray, MlxArray, MlxArray)) -> Seq<Handle> {
        seq![Handle::Array(raw.0), Handle::Array(raw.1), Handle::Array(raw.2)]
    }

    open spec fn frees(&self) -> Seq<Handle> {
        self.0.frees() + self.1.frees() + self.2.frees()
    }

    open spec fn owned(guarded: (Array, Array, Array)) -> Seq<Handle> {
        seq![
            Handle::Array(guarded.0.c_array),
            Handle::Array(guarded.1.c_array),
            Handle::Array(guarded.2.c_array),
        ]
    }

    open spec fn yields(
        raw: (MlxArray, MlxArray, MlxArray),
        here: LocationView,
        result: Result<(Array, Array, Array), Exception>,
    ) -> bool {
        &&& result matches Ok(guarded)
        &&& guarded.0.c_array == raw.0
        &&& guarded.1.c_array == raw.1
        &&& guarded.2.c_array == raw.2
    }

    proof fn fresh_frees_all(&self) {
    }

    proof fn ready_frees_nothing(&self) {
    }

    proof fn hands_on_all(
        raw: (MlxArray, MlxArray, MlxArray),
        here: LocationView,
        guarded: (Array, Array, Array),
    ) {
    }

    fn fill(&mut self, raw: (MlxArray, MlxArray, MlxArray))
        ensures
            final(self).0 == (MaybeUninitArray { ptr: raw.0, ..old(self).0 }),
            final(self).1 == (MaybeUninitArray { ptr: raw.1, ..old(self).1 }),
            final(self).2 == (MaybeUninitArray { ptr: raw.2, ..old(self).2 }),
    {
        self.0.fill(raw.0);
        self.1.fill(raw.1);
        self.2.fill(raw.2);
    }

    fn set_init_success(&mut self, success: bool)
        ensures
            final(self).0 == (MaybeUninitArray { init_success: success, ..old(self).0 }),
            final(self).1 == (MaybeUninitArray { init_success: success, ..old(self).1 }),
            final(self).2 == (MaybeUninitArray { init_success: success, ..old(self).2 }),
    {
        self.0.set_init_success(success);
        self.1.set_init_success(success);
        self.2.set_init_success(success);
    }

    fn on_drop(&self) -> (freed: Vec<Handle>) {
        let mut freed: Vec<Handle> = self.0.on_drop();
        freed.append(&mut self.1.on_drop());
        freed.append(&mut self.2.on_drop());
        freed
    }

    fn try_into_guarded(
        self,
        here: &Location,
    ) -> (result: Result<(Array, Array, Array), Exception>) {
        Ok((
            self.0.try_into_guarded(here)?,
            self.1.try_into_guarded(here)?,
            self.2.try_into_guarded(here)?,
        ))
    }
}

impl Guarded for (Array, Array, Array) {
    type Guard = (MaybeUninitArray, MaybeUninitArray, MaybeUninitArray);
}

/// Holds a plain value, with nothing to free. It can be handed on at any time.
pub struct Plain<T> {
    pub value: T,
}

impl<T> Guard<T> for Plain<T> {
    type Raw = T;

    open spec fn raw(&self) -> T {
        self.value
    }

    open spec fn ready(&self) -> bool {
        true
    }

    open spec fn fresh(&self) -> bool {
        true
    }

    open spec fn handles(raw: T) -> Seq<Handle> {
        Seq::empty()
    }

    open spec fn frees(&self) -> Seq<Handle> {
        Seq::empty()
    }

    open spec fn owned(guarded: T) -> Seq<Handle> {
        Seq::empty()
    }

    open spec fn yields(raw: T, here: LocationView, result: Result<T, Exception>) -> bool {
        result matches Ok(guarded) && guarded == raw
    }

    proof fn fresh_frees_all(&self) {
    }

    proof fn ready_frees_nothing(&self) {
    }

    proof fn hands_on_all(raw: T, here: LocationView, guarded: T) {
    }

    fn fill(&mut self, raw: T)
        ensures
            *final(self) == (Plain { value: raw }),
    {
        self.value = raw;
    }

    fn set_init_success(&mut self, success: bool)
        ensures
            *final(self) == *old(self),
    {
    }

    fn on_drop(&self) -> (freed: Vec<Handle>) {
        Vec::new()
    }

    fn try_into_guarded(self, here: &Location) -> (result: Result<T, Exception>) {
        Ok(self.value)
    }
}

impl Guarded for bool {
    type Guard = Plain<bool>;
}

impl Guarded for u8 {
    type Guard = Plain<u8>;
}

impl Guarded for u16 {
    type Guard = Plain<u16>;
}

impl Guarded for u32 {
    type Guard = Plain<u32>;
}

impl Guarded for u64 {
    type Guard = Plain<u64>;
}

impl Guarded for i8 {
    type Guard = Plain<i8>;
}

impl Guarded for i16 {
    type Guard = Plain<i16>;
}

impl Guarded for i32 {
    type Guard = Plain<i32>;
}

impl Guarded for i64 {
    type Guard = Plain<i64>;
}

impl Guarded for () {
    type Guard = Plain<()>;
}

/// The kind of device that a number of `mlx_device_type` stands for.
pub open spec fn device_type_of(raw: u32) -> Option<DeviceType> {
    if raw == MLX_CPU {
        Some(DeviceType::Cpu)
    } else if raw == MLX_GPU {
        Some(DeviceType::Gpu)
    } else {
        None
    }
}

impl Guard<DeviceType> for u32 {
    type Raw = u32;

    open spec fn raw(&self) -> u32 {
        *self
    }

    open spec fn ready(&self) -> bool {
        true
    }

    open spec fn fresh(&self) -> bool {
        true
    }

    open spec fn handles(raw: u32) -> Seq<Handle> {
        Seq::empty()
    }

    open spec fn frees(&self) -> Seq<Handle> {
        Seq::empty()
    }

    open spec fn owned(guarded: DeviceType) -> Seq<Handle> {
        Seq::empty()
    }

    open spec fn yields(
        raw: u32,
        here: LocationView,
        result: Result<DeviceType, Exception>,
    ) -> bool {
        match device_type_of(raw) {
            Some(device_type) => result matches Ok(guarded) && guarded == device_type,
            None => result matches Err(e) && e@ == (ExceptionView {
                what: "Unknown device type"@,
                location: here,
            }),
        }
    }

    proof fn fresh_frees_all(&self) {
    }

    proof fn ready_frees_nothing(&self) {
    }

    proof fn hands_on_all(raw: u32, here: LocationView, guarded: DeviceType) {
    }

    fn fill(&mut self, raw: u32)
        ensures
            *final(self) == raw,
    {
        *self = raw;
    }

    fn set_init_success(&mut self, success: bool)
        ensures
            *final(self) == *old(self),
    {
    }

    fn on_drop(&self) -> (freed: Vec<Handle>) {
        Vec::new()
    }

    fn try_into_guarded(self, here: &Location) -> (result: Result<DeviceType, Exception>) {
        if self == MLX_CPU {
            Ok(DeviceType::Cpu)
        } else if self == MLX_GPU {
            Ok(DeviceType::Gpu)
        } else {
            Err(Exception { what: "Unknown device type".to_owned(), location: here.clone() })
        }
    }
}

impl Guarded for DeviceType {
    type Guard = u32;
}

/// `half::bf16`, a value that is only handed on here.
#[verifier::external_type_specification]
#[verifier::external_body]
pub struct ExBf16(half::bf16);

/// The value that `half::bf16::from_bits` makes of raw bits.
pub uninterp spec fn bf16_of_bits(bits: u16) -> half::bf16;

/// `half::bf16::from_bits` wraps the raw bits as they are: the value depends on the bits alone,
/// and no other bits give the same value.
pub assume_specification[ half::bf16::from_bits ](bits: u16) -> (value: half::bf16)
    ensures
        value == bf16_of_bits(bits),
        forall|other: u16| bf16_of_bits(other) == value ==> other == bits,
;

impl Guard<half::bf16> for u16 {
    type Raw = u16;

    open spec fn raw(&self) -> u16 {
        *self
    }

    open spec fn ready(&self) -> bool {
        true
    }

    open spec fn fresh(&self) -> bool {
        true
    }

    open spec fn handles(raw: u16) -> Seq<Handle> {
        Seq::empty()
    }

    open spec fn frees(&self) -> Seq<Handle> {
        Seq::empty()
    }

    open spec fn owned(guarded: half::bf16) -> Seq<Handle> {
        Seq::empty()
    }

    open spec fn yields(
        raw: u16,
        here: LocationView,
        result: Result<half::bf16, Exception>,
    ) -> bool {
        &&& result matches Ok(guarded)
        &&& guarded == bf16_of_bits(raw)
        &&& forall|other: u16| #[trigger] bf16_of_bits(other) == guarded ==> other == raw
    }

    proof fn fresh_frees_all(&self) {
    }

    proof fn ready_frees_nothing(&self) {
    }

    proof fn hands_on_all(raw: u16, here: LocationView, guarded: half::bf16) {
    }

    fn fill(&mut self, raw: u16)
        ensures
            *final(self) == raw,
    {
        *self = raw;
    }

    fn set_init_success(&mut self, success: bool)
        ensures
            *final(self) == *old(self),
    {
    }

    fn on_drop(&self) -> (freed: Vec<Handle>) {
        Vec::new()
    }

    fn try_into_guarded(self, here: &Location) -> (result: Result<half::bf16, Exception>) {
        Ok(half::bf16::from_bits(self))
    }
}

impl Guarded for half::bf16 {
    type Guard = u16;
}

} // verus!

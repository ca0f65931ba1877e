//! Vectors of arrays, taken out of mlx-c element by element.
//!
//! The size of a vector and each of its elements come by calls of their own, and the call for an
//! element is an operation like any other. So an extraction says which call is next, takes what
//! came back, and ends either with all elements or at the first operation that failed. A vector
//! whose extraction has begun is freed when it ends, whichever way it went.
//!
//! Two vectors are extracted one after the other. Where that ends in the first of them, the second
//! is not freed: its handle leaks.

use vstd::prelude::*;

use crate::error::{Exception, Location, LocationView};
use crate::guard::{Guard, Guarded, MaybeUninitVectorArray, Settled};
use crate::handles::{Array, Handle, MlxVectorArray};
use crate::instrument::Instruments;
use crate::op::{begins, Op};

verus! {

/// A call that an extraction waits for.
#[derive(Clone, Copy, Debug, PartialEq, Eq, Structural)]
pub enum VectorCall {
    /// `mlx_vector_array_size`.
    Size(MlxVectorArray),
    /// `mlx_vector_array_get`, which is run as an operation of its own.
    Get(MlxVectorArray, usize),
}

/// The operation that fetches an element.
pub type ElementOp = Op<VectorCall, Array, <Array as Guarded>::Guard>;

impl VectorCall {
    /// Begins the operation that fetches an element.
    pub fn begin_get(self, instruments: &Instruments) -> (op: ElementOp)
        requires
            self is Get,
        ensures
            op.call == self,
            begins(instruments@.plan(), op.state),
    {
        Op::begin(instruments, self)
    }
}

/// The extraction of the elements of a vector.
pub struct VectorExtraction {
    c_vec: MlxVectorArray,
    size: Option<usize>,
    arrays: Vec<Array>,
}

/// An extraction: the vector, its size once that is known, and the elements that came.
pub struct VectorExtractionView {
    pub c_vec: MlxVectorArray,
    pub size: Option<usize>,
    pub arrays: Seq<Array>,
}

impl View for VectorExtraction {
    type V = VectorExtractionView;

    closed spec fn view(&self) -> VectorExtractionView {
        VectorExtractionView { c_vec: self.c_vec, size: self.size, arrays: self.arrays@ }
    }
}

/// The handles of arrays, in their order.
pub open spec fn array_handles(arrays: Seq<Array>) -> Seq<Handle> {
    arrays.map_values(|a: Array| Handle::Array(a.c_array))
}

impl VectorExtractionView {
    /// At most as many elements came as the vector has.
    pub open spec fn wf(self) -> bool {
        match self.size {
            Some(size) => self.arrays.len() <= size,
            None => self.arrays.len() == 0,
        }
    }

    /// The call that is next.
    pub open spec fn next(self) -> Option<VectorCall> {
        match self.size {
            None => Some(VectorCall::Size(self.c_vec)),
            Some(size) if self.arrays.len() < size => Some(
                VectorCall::Get(self.c_vec, self.arrays.len() as usize),
            ),
            Some(_) => None,
        }
    }

    /// The handles that the extraction is answerable for.
    pub open spec fn held(self) -> Seq<Handle> {
        array_handles(self.arrays) + seq![Handle::VectorArray(self.c_vec)]
    }
}

/// An extraction that has just begun.
pub open spec fn extraction_of(c_vec: MlxVectorArray) -> VectorExtractionView {
    VectorExtractionView { c_vec, size: None, arrays: Seq::empty() }
}

/// Appends the handles of arrays that are dropped, in their order.
fn drop_arrays(freed: &mut Vec<Handle>, arrays: &Vec<Array>)
    ensures
        final(freed)@ == old(freed)@ + array_handles(arrays@),
{
    let ghost before = freed@;
    let mut i: usize = 0;
    while i < arrays.len()
        invariant
            i <= arrays@.len(),
            freed@ == before + array_handles(arrays@.take(i as int)),
        decreases arrays@.len() - i,
    {
        freed.push(Handle::Array(arrays[i].as_ptr()));
        i = i + 1;
        assert(array_handles(arrays@.take(i as int)) =~= array_handles(
            arrays@.take(i - 1),
        ).push(Handle::Array(arrays@[i - 1].c_array)));
    }
    assert(arrays@.take(arrays@.len() as int) =~= arrays@);
}

impl VectorExtraction {
    /// Begins to extract the elements of a vector.
    pub fn new(c_vec: MlxVectorArray) -> (extraction: Self)
        ensures
            extraction@ == extraction_of(c_vec),
    {
        let extraction: VectorExtraction = VectorExtraction {
            c_vec,
            size: None,
            arrays: Vec::new(),
        };
        assert(extraction@.arrays =~= Seq::<Array>::empty());
        extraction
    }

    /// The call that is next, or nothing once all elements came.
    pub fn next(&self) -> (call: Option<VectorCall>)
        ensures
            call == self@.next(),
    {
        match self.size {
            None => Some(VectorCall::Size(self.c_vec)),
            Some(size) => if self.arrays.len() < size {
                Some(VectorCall::Get(self.c_vec, self.arrays.len()))
            } else {
                None
            },
        }
    }

    /// Takes the size of the vector.
    pub fn sized(self, size: usize) -> (extraction: Self)
        requires
            self@.wf(),
            self@.size is None,
        ensures
            extraction@ == (VectorExtractionView { size: Some(size), ..self@ }),
            extraction@.wf(),
    {
        VectorExtraction { size: Some(size), ..self }
    }

    /// Takes what the operation for the next element ended with. Where it failed, the extraction
    /// ends there: the elements that came so far are freed, and then the vector.
    pub fn got(self, element: Result<Array, Exception>) -> (next: Result<
        VectorExtraction,
        Settled<Vec<Array>>,
    >)
        requires
            self@.wf(),
            self@.next() matches Some(VectorCall::Get(..)),
        ensures
            match (element, next) {
                (Ok(array), Ok(extraction)) => {
                    &&& extraction@ == (VectorExtractionView {
                        arrays: self@.arrays.push(array),
                        ..self@
                    })
                    &&& extraction@.wf()
                },
                (Err(e), Err(end)) => {
                    &&& end.result == Err::<Vec<Array>, Exception>(e)
                    &&& end.freed@ == self@.held()
                },
                _ => false,
            },
    {
        let VectorExtraction { c_vec, size, mut arrays } = self;
        match element {
            Ok(array) => {
                arrays.push(array);
                Ok(VectorExtraction { c_vec, size, arrays })
            },
            Err(e) => {
                let mut freed: Vec<Handle> = Vec::new();
                drop_arrays(&mut freed, &arrays);
                freed.push(Handle::VectorArray(c_vec));
                Err(Settled { result: Err(e), freed })
            },
        }
    }

    /// Ends an extraction to which all elements came: the caller gets them, in their order, and
    /// the vector is freed.
    pub fn finish(self) -> (end: Settled<Vec<Array>>)
        requires
            self@.wf(),
            self@.next() is None,
        ensures
            end.result matches Ok(arrays) && arrays@ == self@.arrays && arrays@.len()
                == self@.size->0 && array_handles(arrays@) + end.freed@ == self@.held(),
            end.freed@ == seq![Handle::VectorArray(self@.c_vec)],
    {
        let mut freed: Vec<Handle> = Vec::new();
        freed.push(Handle::VectorArray(self.c_vec));
        Settled { result: Ok(self.arrays), freed }
    }
}

impl Guard<VectorExtraction> for MaybeUninitVectorArray {
    type Raw = MlxVectorArray;

    open spec fn raw(&self) -> MlxVectorArray {
        self.ptr
    }

    open spec fn ready(&self) -> bool {
        self.init_success
    }

    open spec fn fresh(&self) -> bool {
        !self.init_success
    }

    open spec fn handles(raw: MlxVectorArray) -> Seq<Handle> {
        seq![Handle::VectorArray(raw)]
    }

    open spec fn frees(&self) -> Seq<Handle> {
        if self.init_success {
            Seq::empty()
        } else {
            seq![Handle::VectorArray(self.ptr)]
        }
    }

    open spec fn owned(guarded: VectorExtraction) -> Seq<Handle> {
        guarded@.held()
    }

    open spec fn yields(
        raw: MlxVectorArray,
        here: LocationView,
        result: Result<VectorExtraction, Exception>,
    ) -> bool {
        result matches Ok(guarded) && guarded@ == extraction_of(raw)
    }

    proof fn fresh_frees_all(&self) {
    }

    proof fn ready_frees_nothing(&self) {
    }

    proof fn hands_on_all(raw: MlxVectorArray, here: LocationView, guarded: VectorExtraction) {
    }

    fn fill(&mut self, raw: MlxVectorArray)
        ensures
            *final(self) == (MaybeUninitVectorArray { ptr: raw, ..*old(self) }),
    {
        self.ptr = raw;
    }

    fn set_init_success(&mut self, success: bool)
        ensures
            *final(self) == (MaybeUninitVectorArray { init_success: success, ..*old(self) }),
    {
        self.init_success = success;
    }

    fn on_drop(&self) -> (freed: Vec<Handle>) {
        let mut freed: Vec<Handle> = Vec::new();
        if !self.init_success {
            freed.push(Handle::VectorArray(self.ptr));
        }
        freed
    }

    fn try_into_guarded(self, here: &Location) -> (result: Result<VectorExtraction, Exception>) {
        Ok(VectorExtraction::new(self.ptr))
    }
}

impl Guarded for VectorExtraction {
    type Guard = MaybeUninitVectorArray;
}

/// The extraction of the elements of two vectors, one vector after the other.
pub struct VectorPairExtraction {
    first: Option<Vec<Array>>,
    current: VectorExtraction,
    second: MlxVectorArray,
}

/// An extraction of two vectors: the elements of the first vector once they all came, the
/// extraction that is under way, and the second vector.
pub struct VectorPairExtractionView {
    pub first: Option<Seq<Array>>,
    pub current: VectorExtractionView,
    pub second: MlxVectorArray,
}

impl View for VectorPairExtraction {
    type V = VectorPairExtractionView;

    closed spec fn view(&self) -> VectorPairExtractionView {
        VectorPairExtractionView {
            first: match self.first {
                Some(arrays) => Some(arrays@),
                None => None,
            },
            current: self.current@,
            second: self.second,
        }
    }
}

impl VectorPairExtractionView {
    /// Once the elements of the first vector came, those of the second are under way.
    pub open spec fn wf(self) -> bool {
        &&& self.current.wf()
        &&& self.first is Some ==> self.current.c_vec == self.second
    }

    /// The handles that the extraction is answerable for.
    pub open spec fn held(self) -> Seq<Handle> {
        match self.first {
            Some(arrays) => array_handles(arrays) + self.current.held(),
            None => self.current.held() + seq![Handle::VectorArray(self.second)],
        }
    }
}

/// An extraction of two vectors that has just begun.
pub open spec fn pair_extraction_of(
    first: MlxVectorArray,
    second: MlxVectorArray,
) -> VectorPairExtractionView {
    VectorPairExtractionView { first: None, current: extraction_of(first), second }
}

/// What is next in the extraction of two vectors.
pub enum PairStep {
    /// A call.
    Call(VectorPairExtraction, VectorCall),
    /// The first vector is done with and is to be freed.
    Free(VectorPairExtraction, Handle),
    /// Nothing.
    Done(Settled<(Vec<Array>, Vec<Array>)>),
}

impl VectorPairExtraction {
    /// Begins to extract the elements of two vectors.
    pub fn new(first: MlxVectorArray, second: MlxVectorArray) -> (extraction: Self)
        ensures
            extraction@ == pair_extraction_of(first, second),
    {
        VectorPairExtraction { first: None, current: VectorExtraction::new(first), second }
    }

    /// What is next.
    pub fn step(self) -> (step: PairStep)
        requires
            self@.wf(),
        ensures
            match (self@.current.next(), self@.first) {
                (Some(call), _) => step matches PairStep::Call(extraction, next) && extraction@
                    == self@ && next == call,
                (None, None) => {
                    &&& step matches PairStep::Free(extraction, freed)
                    &&& freed == Handle::VectorArray(self@.current.c_vec)
                    &&& extraction@ == (VectorPairExtractionView {
                        first: Some(self@.current.arrays),
                        current: extraction_of(self@.second),
                        second: self@.second,
                    })
                    &&& extraction@.wf()
                    &&& self@.held()[self@.current.arrays.len() as int] == freed
                    &&& extraction@.held() == self@.held().remove(
                        self@.current.arrays.len() as int,
                    )
                },
                (None, Some(arrays)) => {
                    &&& step matches PairStep::Done(end)
                    &&& end.result matches Ok(pair) && pair.0@ == arrays && pair.1@
                        == self@.current.arrays
                    &&& end.freed@ == seq![Handle::VectorArray(self@.second)]
                    &&& array_handles(end.result->Ok_0.0@) + array_handles(end.result->Ok_0.1@)
                        + end.freed@ == self@.held()
                },
            },
    {
        match self.current.next() {
            Some(call) => PairStep::Call(self, call),
            None => {
                let VectorPairExtraction { first, current, second } = self;
                let VectorExtraction { c_vec, size: _, arrays } = current;
                match first {
                    None => PairStep::Free(
                        VectorPairExtraction {
                            first: Some(arrays),
                            current: VectorExtraction::new(second),
                            second,
                        },
                        Handle::VectorArray(c_vec),
                    ),
                    Some(first) => {
                        let mut freed: Vec<Handle> = Vec::new();
                        freed.push(Handle::VectorArray(c_vec));
                        PairStep::Done(Settled { result: Ok((first, arrays)), freed })
                    },
                }
            },
        }
    }

    /// Takes the size of the vector that is under way.
    pub fn sized(self, size: usize) -> (extraction: Self)
        requires
            self@.wf(),
            self@.current.size is None,
        ensures
            extraction@ == (VectorPairExtractionView {
                current: VectorExtractionView { size: Some(size), ..self@.current },
                ..self@
            }),
            extraction@.wf(),
    {
        VectorPairExtraction {
            first: self.first,
            current: self.current.sized(size),
            second: self.second,
        }
    }

    /// Takes what the operation for the next element ended with. Where it failed, the extraction
    /// ends there: the elements of the vector that is under way are freed, then that vector, then
    /// the elements of the first vector where they all came before. A second vector whose turn had
    /// not come is not freed, and leaks.
    pub fn got(self, element: Result<Array, Exception>) -> (next: Result<
        VectorPairExtraction,
        Settled<(Vec<Array>, Vec<Array>)>,
    >)
        requires
            self@.wf(),
            self@.current.next() matches Some(VectorCall::Get(..)),
        ensures
            match (element, next) {
                (Ok(array), Ok(extraction)) => {
                    &&& extraction@ == (VectorPairExtractionView {
                        current: VectorExtractionView {
                            arrays: self@.current.arrays.push(array),
                            ..self@.current
                        },
                        ..self@
                    })
                    &&& extraction@.wf()
                },
                (Err(e), Err(end)) => {
                    &&& end.result == Err::<(Vec<Array>, Vec<Array>), Exception>(e)
                    &&& end.freed@ == self@.current.held() + (match self@.first {
                        Some(arrays) => array_handles(arrays),
                        None => Seq::empty(),
                    })
                },
                _ => false,
            },
    {
        let VectorPairExtraction { first, current, second } = self;
        let VectorExtraction { c_vec, size, mut arrays } = current;
        match element {
            Ok(array) => {
                arrays.push(array);
                Ok(
                    VectorPairExtraction {
                        first,
                        current: VectorExtraction { c_vec, size, arrays },
                        second,
                    },
                )
            },
            Err(e) => {
                let mut freed: Vec<Handle> = Vec::new();
                drop_arrays(&mut freed, &arrays);
                freed.push(Handle::VectorArray(c_vec));
                match &first {
                    Some(done) => drop_arrays(&mut freed, done),
                    None => {},
                }
                Err(Settled { result: Err(e), freed })
            },
        }
    }
}

impl Guard<VectorPairExtraction> for (MaybeUninitVectorArray, MaybeUninitVectorArray) {
    type Raw = (MlxVectorArray, MlxVectorArray);

    open spec fn raw(&self) -> (MlxVectorArray, MlxVectorArray) {
        (self.0.ptr, self.1.ptr)
    }

    open spec fn ready(&self) -> bool {
        self.0.init_success && self.1.init_success
    }

    open spec fn fresh(&self) -> bool {
        !self.0.init_success && !self.1.init_success
    }

    open spec fn handles(raw: (MlxVectorArray, MlxVectorArray)) -> Seq<Handle> {
        seq![Handle::VectorArray(raw.0), Handle::VectorArray(raw.1)]
    }

    open spec fn frees(&self) -> Seq<Handle> {
        <MaybeUninitVectorArray as Guard<VectorExtraction>>::frees(&self.0)
            + <MaybeUninitVectorArray as Guard<VectorExtraction>>::frees(&self.1)
    }

    open spec fn owned(guarded: VectorPairExtraction) -> Seq<Handle> {
        guarded@.held()
    }

    open spec fn yields(
        raw: (MlxVectorArray, MlxVectorArray),
        here: LocationView,
        result: Result<VectorPairExtraction, Exception>,
    ) -> bool {
        result matches Ok(guarded) && guarded@ == pair_extraction_of(raw.0, raw.1)
    }

    proof fn fresh_frees_all(&self) {
    }

    proof fn ready_frees_nothing(&self) {
    }

    proof fn hands_on_all(
        raw: (MlxVectorArray, MlxVectorArray),
        here: LocationView,
        guarded: VectorPairExtraction,
    ) {
    }

    fn fill(&mut self, raw: (MlxVectorArray, MlxVectorArray))
        ensures
            final(self).0.ptr == raw.0,
            final(self).1.ptr == raw.1,
            final(self).0.init_success == old(self).0.init_success,
            final(self).1.init_success == old(self).1.init_success,
    {
        self.0.ptr = raw.0;
        self.1.ptr = raw.1;
    }

    fn set_init_success(&mut self, success: bool)
        ensures
            final(self).0 == (MaybeUninitVectorArray { init_success: success, ..old(self).0 }),
            final(self).1 == (MaybeUninitVectorArray { init_success: success, ..old(self).1 }),
    {
        self.0.init_success = success;
        self.1.init_success = success;
    }

    fn on_drop(&self) -> (freed: Vec<Handle>) {
        let mut freed: Vec<Handle> = Vec::new();
        if !self.0.init_success {
            freed.push(Handle::VectorArray(self.0.ptr));
        }
        if !self.1.init_success {
            freed.push(Handle::VectorArray(self.1.ptr));
        }
        freed
    }

    fn try_into_guarded(self, here: &Location) -> (result: Result<
        VectorPairExtraction,
        Exception,
    >) {
        Ok(VectorPairExtraction::new(self.0.ptr, self.1.ptr))
    }
}

impl Guarded for VectorPairExtraction {
    type Guard = (MaybeUninitVectorArray, MaybeUninitVectorArray);
}

} // verus!

//! Vectors of arrays, taken out element by element.

use vstd::prelude::*;

use crate::error::Exception;
use crate::guard::Settled;
use crate::handles::{Array, Handle, MlxVectorArray};
use crate::instrument::Instruments;
use crate::laws::metal::begins_as_switched;
use crate::vector::{
    array_handles, ElementOp, PairStep, VectorCall, VectorExtraction, VectorExtractionView,
    VectorPairExtraction, VectorPairExtractionView,
};

verus! {

/// The handles of arrays are theirs, one for each and in their order.
pub proof fn handles_of_arrays_are_theirs(arrays: Seq<Array>)
    ensures
        array_handles(arrays).len() == arrays.len(),
        forall|i: int|
            0 <= i < arrays.len() ==> #[trigger] array_handles(arrays)[i] == Handle::Array(
                arrays[i].c_array,
            ),
{
}

/// An extraction can go on as long as no more elements came than the vector has.
pub proof fn extractions_go_on_within_the_size(
    extraction: VectorExtractionView,
    pair: VectorPairExtractionView,
)
    ensures
        extraction.wf() <==> (extraction.size matches Some(size) ==> extraction.arrays.len()
            <= size) && (extraction.size is None ==> extraction.arrays.len() == 0),
        pair.wf() <==> pair.current.wf() && (pair.first is Some ==> pair.current.c_vec
            == pair.second),
        extraction.held() == array_handles(extraction.arrays) + seq![
            Handle::VectorArray(extraction.c_vec),
        ],
{
}

/// A new extraction knows its vector and nothing else.
pub proof fn new_extractions_know_their_vectors(
    c_vec: MlxVectorArray,
    second: MlxVectorArray,
    extraction: VectorExtraction,
    pair: VectorPairExtraction,
)
    requires
        call_ensures(VectorExtraction::new, (c_vec,), extraction),
        call_ensures(VectorPairExtraction::new, (c_vec, second), pair),
    ensures
        extraction@.c_vec == c_vec,
        extraction@.size is None,
        extraction@.arrays.len() == 0,
        pair@.first is None,
        pair@.current == extraction@,
        pair@.second == second,
{
}

/// An extraction asks for the size first, then for the element after the last one that came, and
/// for nothing once as many came as the vector has.
pub proof fn extraction_asks_for_what_is_missing(
    extraction: &VectorExtraction,
    call: Option<VectorCall>,
)
    requires
        call_ensures(VectorExtraction::next, (extraction,), call),
    ensures
        extraction@.size is None ==> call == Some(VectorCall::Size(extraction@.c_vec)),
        extraction@.size matches Some(size) ==> extraction@.arrays.len() < size ==> call == Some(
            VectorCall::Get(extraction@.c_vec, extraction@.arrays.len() as usize),
        ),
        extraction@.size matches Some(size) ==> extraction@.arrays.len() >= size ==> call is None,
{
}

/// An extraction keeps every element that comes, behind those that came before. At the first
/// failure it ends with that error, and frees the elements in their order and then the vector.
pub proof fn extraction_keeps_or_frees_elements(
    unsized_extraction: VectorExtraction,
    size: usize,
    sized: VectorExtraction,
    extraction: VectorExtraction,
    element: Result<Array, Exception>,
    next: Result<VectorExtraction, Settled<Vec<Array>>>,
)
    requires
        call_ensures(VectorExtraction::sized, (unsized_extraction, size), sized),
        call_ensures(VectorExtraction::got, (extraction, element), next),
    ensures
        sized@.size == Some(size),
        sized@.c_vec == unsized_extraction@.c_vec,
        sized@.arrays == unsized_extraction@.arrays,
        element is Ok <==> next is Ok,
        next matches Ok(kept) ==> {
            &&& kept@.c_vec == extraction@.c_vec
            &&& kept@.size == extraction@.size
            &&& kept@.arrays.len() == extraction@.arrays.len() + 1
            &&& kept@.arrays.last() == element->Ok_0
            &&& forall|i: int|
                0 <= i < extraction@.arrays.len() ==> #[trigger] kept@.arrays[i]
                    == extraction@.arrays[i]
        },
        next matches Err(end) ==> {
            &&& end.result == Err::<Vec<Array>, Exception>(element->Err_0)
            &&& end.freed@.len() == extraction@.arrays.len() + 1
            &&& forall|i: int|
                0 <= i < extraction@.arrays.len() ==> #[trigger] end.freed@[i] == Handle::Array(
                    extraction@.arrays[i].c_array,
                )
            &&& end.freed@.last() == Handle::VectorArray(extraction@.c_vec)
        },
{
}

/// An extraction that has all elements gives them in their order, and frees the vector alone.
pub proof fn extraction_gives_all_elements(
    extraction: VectorExtraction,
    end: Settled<Vec<Array>>,
)
    requires
        call_ensures(VectorExtraction::finish, (extraction,), end),
    ensures
        end.result matches Ok(arrays) && arrays@ == extraction@.arrays,
        end.freed@ == seq![Handle::VectorArray(extraction@.c_vec)],
{
}

/// An element is fetched by an operation that makes the call for it.
pub proof fn elements_are_fetched_by_operations(
    call: VectorCall,
    instruments: &Instruments,
    op: ElementOp,
)
    requires
        call_ensures(VectorCall::begin_get, (call, instruments), op),
    ensures
        op.call == call,
        begins_as_switched(instruments, op.state),
{
}

/// Two vectors are extracted one after the other. Calls are those of the vector that is under way.
/// Once all elements of the first came, it is freed and the second begins; once all of the second
/// came, both are given, and the second vector is freed.
pub proof fn pair_extraction_takes_its_steps(pair: VectorPairExtraction, step: PairStep)
    requires
        call_ensures(VectorPairExtraction::step, (pair,), step),
    ensures
        ({
            let current = pair@.current;
            let complete = current.size matches Some(size) && current.arrays.len() >= size;
            &&& current.size is None ==> (step matches PairStep::Call(next, call) && next@ == pair@
                && call == VectorCall::Size(current.c_vec))
            &&& current.size is Some && !complete ==> (step matches PairStep::Call(next, call)
                && next@ == pair@ && call == VectorCall::Get(
                current.c_vec,
                current.arrays.len() as usize,
            ))
            &&& complete && pair@.first is None ==> {
                &&& step matches PairStep::Free(next, freed)
                &&& freed == Handle::VectorArray(current.c_vec)
                &&& next@.first == Some(current.arrays)
                &&& next@.current.c_vec == pair@.second
                &&& next@.current.size is None
                &&& next@.current.arrays.len() == 0
                &&& next@.second == pair@.second
            }
            &&& complete ==> (pair@.first matches Some(first) ==> {
                &&& step matches PairStep::Done(end)
                &&& end.result matches Ok(both)
                &&& both.0@ == first
                &&& both.1@ == current.arrays
                &&& end.freed@ == seq![Handle::VectorArray(pair@.second)]
            })
        }),
{
}

/// In an extraction of two vectors, an element that comes is kept behind those of its vector. At
/// the first failure the elements of the vector that is under way are freed, then that vector, then
/// the elements of the first vector where they all came before; and nothing else is freed.
pub proof fn pair_extraction_keeps_or_frees_elements(
    unsized_pair: VectorPairExtraction,
    size: usize,
    sized: VectorPairExtraction,
    pair: VectorPairExtraction,
    element: Result<Array, Exception>,
    next: Result<VectorPairExtraction, Settled<(Vec<Array>, Vec<Array>)>>,
)
    requires
        call_ensures(VectorPairExtraction::sized, (unsized_pair, size), sized),
        call_ensures(VectorPairExtraction::got, (pair, element), next),
    ensures
        sized@.first == unsized_pair@.first,
        sized@.second == unsized_pair@.second,
        sized@.current.size == Some(size),
        sized@.current.c_vec == unsized_pair@.current.c_vec,
        sized@.current.arrays == unsized_pair@.current.arrays,
        element is Ok <==> next is Ok,
        next matches Ok(kept) ==> {
            &&& kept@.first == pair@.first
            &&& kept@.second == pair@.second
            &&& kept@.current.c_vec == pair@.current.c_vec
            &&& kept@.current.size == pair@.current.size
            &&& kept@.current.arrays == pair@.current.arrays + seq![element->Ok_0]
        },
        next matches Err(end) ==> {
            let came = pair@.current.arrays.len() as int;
            let before = match pair@.first {
                Some(arrays) => arrays,
                None => Seq::empty(),
            };
            &&& end.result == Err::<(Vec<Array>, Vec<Array>), Exception>(element->Err_0)
            &&& end.freed@.len() == came + 1 + before.len()
            &&& forall|i: int|
                0 <= i < came ==> #[trigger] end.freed@[i] == Handle::Array(
                    pair@.current.arrays[i].c_array,
                )
            &&& end.freed@[came] == Handle::VectorArray(pair@.current.c_vec)
            &&& forall|i: int|
                came < i <= came + before.len() ==> #[trigger] end.freed@[i] == Handle::Array(
                    before[i - came - 1].c_array,
                )
        },
{
    if let Ok(array) = element {
        assert(pair@.current.arrays.push(array) =~= pair@.current.arrays + seq![array]);
    }
}

} // verus!

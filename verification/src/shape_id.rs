//! One integer id space for the two kinds of shapes of a document.
//!
//! Non-negative ids are the stored ids of annotated objects. Negative ids
//! address regions of interest by position: the region at `index` has the
//! id `-(index + 1)`.

use vstd::prelude::*;

verus! {

/// Largest position of a region of interest that still has an id.
pub const MAX_ROI_INDEX: usize = 0x7fff_ffff;

/// The id of the region of interest at position `index`.
pub open spec fn spec_roi_id(index: int) -> int {
    -(index + 1)
}

/// The position that `id` addresses, if `id` names a region of interest.
pub open spec fn spec_roi_index(id: int) -> Option<int> {
    if id < 0 {
        Some(-id - 1)
    } else {
        None
    }
}

/// Encodes the position of a region of interest as a shape id.
pub fn roi_id_from_index(index: usize) -> (id: i32)
    requires
        index <= MAX_ROI_INDEX,
    ensures
        id == spec_roi_id(index as int),
        id < 0,
{
    let narrow: i32 = index as i32;
    -narrow - 1
}

/// Decodes a shape id: `Some(position)` for a region of interest, `None`
/// for the id of an object.
pub fn roi_index_from_id(id: i32) -> (index: Option<usize>)
    ensures
        index.is_some() == (id < 0),
        id < 0 ==> index == Some((-id - 1) as usize),
        id < 0 ==> spec_roi_index(id as int) == Some(index.unwrap() as int),
        index.is_some() ==> index.unwrap() <= MAX_ROI_INDEX,
{
    if id < 0 {
        let back: i32 = -(id + 1);
        Some(back as usize)
    } else {
        None
    }
}

/// Encoding a position and decoding the id gives the position back.
pub proof fn lemma_roi_index_of_id(index: int)
    requires
        0 <= index,
    ensures
        spec_roi_index(spec_roi_id(index)) == Some(index),
{
}

/// No object id, that is no non-negative id, decodes to a position.
pub proof fn lemma_object_id_is_no_roi(id: int)
    requires
        0 <= id,
    ensures
        spec_roi_index(id) is None,
{
}

/// Decoding an id of a region of interest and encoding the position gives
/// the id back, and distinct positions have distinct ids.
pub proof fn lemma_roi_id_of_index(id: int, other: int)
    requires
        id < 0,
    ensures
        spec_roi_id(spec_roi_index(id).unwrap()) == id,
        spec_roi_index(id).unwrap() >= 0,
        other < 0 && other != id ==> spec_roi_index(other) != spec_roi_index(id),
{
}

} // verus!
